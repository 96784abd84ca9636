//! The settings app's security page: the names it shows for policies,
//! runtime states, audit kinds and applications, the summaries of
//! permission and capability masks, and the runtime approval it acts on.
use vstd::prelude::*;
use vstd::string::StringSliceAdditionalSpecFns;

use crate::abi::{PermissionPolicyState, RuntimeEnvState, SecurityAuditKind, ServiceImageId};
use crate::app_permission;
use crate::runtime_capability;
use crate::text::push_bytes;
use crate::types::{RuntimeAuditInfo, RuntimeEnvInfo};

verus! {

pub open spec fn policy_text(policy: PermissionPolicyState) -> &'static str {
    match policy {
        PermissionPolicyState::DefaultAllow => "default-allow",
        PermissionPolicyState::Allowed => "allowed",
        PermissionPolicyState::Blocked => "blocked",
    }
}

/// The name the page shows for a launch policy.
pub fn policy_name(policy: PermissionPolicyState) -> (t: &'static str)
    ensures
        t == policy_text(policy),
{
    match policy {
        PermissionPolicyState::DefaultAllow => "default-allow",
        PermissionPolicyState::Allowed => "allowed",
        PermissionPolicyState::Blocked => "blocked",
    }
}

pub open spec fn runtime_env_state_text(state: RuntimeEnvState) -> &'static str {
    match state {
        RuntimeEnvState::Ready => "ready",
        RuntimeEnvState::Busy => "busy",
        RuntimeEnvState::Destroyed => "destroyed",
        RuntimeEnvState::PendingApproval => "pending-approval",
        RuntimeEnvState::Denied => "denied",
    }
}

/// The name the page shows for a runtime environment's state.
pub fn runtime_env_state_name(state: RuntimeEnvState) -> (t: &'static str)
    ensures
        t == runtime_env_state_text(state),
{
    match state {
        RuntimeEnvState::Ready => "ready",
        RuntimeEnvState::Busy => "busy",
        RuntimeEnvState::Destroyed => "destroyed",
        RuntimeEnvState::PendingApproval => "pending-approval",
        RuntimeEnvState::Denied => "denied",
    }
}

pub open spec fn audit_kind_text(kind: SecurityAuditKind) -> &'static str {
    match kind {
        SecurityAuditKind::PolicyChanged => "policy-changed",
        SecurityAuditKind::LaunchDenied => "launch-denied",
        SecurityAuditKind::RuntimeApprovalRequested => "approval-requested",
        SecurityAuditKind::RuntimeApprovalChanged => "approval-changed",
    }
}

/// The name the page shows for an audit record's kind.
pub fn audit_kind_name(kind: SecurityAuditKind) -> (t: &'static str)
    ensures
        t == audit_kind_text(kind),
{
    match kind {
        SecurityAuditKind::PolicyChanged => "policy-changed",
        SecurityAuditKind::LaunchDenied => "launch-denied",
        SecurityAuditKind::RuntimeApprovalRequested => "approval-requested",
        SecurityAuditKind::RuntimeApprovalChanged => "approval-changed",
    }
}

pub open spec fn image_text(image_id: ServiceImageId) -> &'static str {
    match image_id {
        ServiceImageId::SettingsApp => "settings",
        ServiceImageId::FilesApp => "files",
        ServiceImageId::MonitorApp => "monitor",
        ServiceImageId::TerminalApp => "terminal",
        ServiceImageId::SoftwareCenterApp => "software",
        ServiceImageId::SysinfoTool => "sysinfo",
        ServiceImageId::PosixHostTool => "runtime-host",
        ServiceImageId::CrossBuilderTool => "cross-builder",
        _ => "unknown",
    }
}

/// The name the page shows for an application image; images the page does
/// not list are "unknown".
pub fn image_name(image_id: ServiceImageId) -> (t: &'static str)
    ensures
        t == image_text(image_id),
{
    match image_id {
        ServiceImageId::SettingsApp => "settings",
        ServiceImageId::FilesApp => "files",
        ServiceImageId::MonitorApp => "monitor",
        ServiceImageId::TerminalApp => "terminal",
        ServiceImageId::SoftwareCenterApp => "software",
        ServiceImageId::SysinfoTool => "sysinfo",
        ServiceImageId::PosixHostTool => "runtime-host",
        ServiceImageId::CrossBuilderTool => "cross-builder",
        _ => "unknown",
    }
}

/// The names of the entries of `table` whose bit is set in `mask`, in
/// table order, separated by commas.
pub open spec fn joined_names(mask: u32, table: Seq<(&'static str, u32)>) -> Seq<u8>
    decreases table.len(),
{
    if table.len() == 0 {
        Seq::empty()
    } else {
        let front = joined_names(mask, table.drop_last());
        let (name, bit) = table.last();
        if mask & bit == 0 {
            front
        } else if front.len() == 0 {
            name.spec_bytes()
        } else {
            front + seq![44u8] + name.spec_bytes()
        }
    }
}

/// The summary of a mask over `table`: the joined names, or "-" when no
/// bit of the table is set.
pub open spec fn mask_summary(mask: u32, table: Seq<(&'static str, u32)>) -> Seq<u8> {
    if joined_names(mask, table).len() == 0 { seq![45u8] } else { joined_names(mask, table) }
}

/// The permissions an application may hold, in the order the page lists
/// them.
pub open spec fn permission_table() -> Seq<(&'static str, u32)> {
    seq![
        ("config", app_permission::CONFIG),
        ("storage", app_permission::STORAGE),
        ("status", app_permission::STATUS),
        ("package", app_permission::PACKAGE),
        ("network", app_permission::NETWORK),
        ("audio", app_permission::AUDIO),
        ("terminal", app_permission::TERMINAL),
        ("clipboard", app_permission::CLIPBOARD),
    ]
}

/// The capabilities a runtime environment may be granted, in the order the
/// page lists them.
pub open spec fn capability_table() -> Seq<(&'static str, u32)> {
    seq![
        ("file-read", runtime_capability::FILE_READ),
        ("terminal-io", runtime_capability::TERMINAL_IO),
        ("network", runtime_capability::NETWORK),
        ("graphics", runtime_capability::GRAPHICS),
        ("audio", runtime_capability::AUDIO),
    ]
}

fn summary_of(mask: u32, table: &[(&'static str, u32)]) -> (t: Vec<u8>)
    ensures
        t@ == mask_summary(mask, table@),
{
    let mut t: Vec<u8> = Vec::new();
    let n = table.len();
    let mut i: usize = 0;
    while i < n
        invariant
            n == table@.len(),
            i <= n,
            t@ == joined_names(mask, table@.subrange(0, i as int)),
        decreases n - i,
    {
        let (name, bit) = table[i];
        proof {
            assert(table@.subrange(0, i + 1).drop_last() =~= table@.subrange(0, i as int));
        }
        if mask & bit != 0 {
            if t.len() > 0 {
                t.push(44);
            }
            push_bytes(&mut t, name.as_bytes());
        }
        i = i + 1;
    }
    assert(table@.subrange(0, n as int) =~= table@);
    if t.len() == 0 {
        t.push(45);
        assert(t@ =~= seq![45u8]);
    }
    t
}

/// The permissions of `mask`, by name and in the page's order, separated
/// by commas; "-" for none.
pub fn permission_summary(mask: u32) -> (t: Vec<u8>)
    ensures
        t@ == mask_summary(mask, permission_table()),
{
    let table: [(&'static str, u32); 8] = [
        ("config", app_permission::CONFIG),
        ("storage", app_permission::STORAGE),
        ("status", app_permission::STATUS),
        ("package", app_permission::PACKAGE),
        ("network", app_permission::NETWORK),
        ("audio", app_permission::AUDIO),
        ("terminal", app_permission::TERMINAL),
        ("clipboard", app_permission::CLIPBOARD),
    ];
    assert(table@ =~= permission_table());
    summary_of(mask, table.as_slice())
}

/// The runtime capabilities of `mask`, by name and in the page's order,
/// separated by commas; "-" for none.
pub fn runtime_cap_summary(mask: u32) -> (t: Vec<u8>)
    ensures
        t@ == mask_summary(mask, capability_table()),
{
    let table: [(&'static str, u32); 5] = [
        ("file-read", runtime_capability::FILE_READ),
        ("terminal-io", runtime_capability::TERMINAL_IO),
        ("network", runtime_capability::NETWORK),
        ("graphics", runtime_capability::GRAPHICS),
        ("audio", runtime_capability::AUDIO),
    ];
    assert(table@ =~= capability_table());
    summary_of(mask, table.as_slice())
}

/// The capability classes the runtime approval flow gates on.
pub open spec fn sensitive_mask() -> u32 {
    runtime_capability::NETWORK | runtime_capability::GRAPHICS | runtime_capability::AUDIO
}

/// The sensitive classes among `capabilities`: network, graphics and
/// audio.
pub fn sensitive_runtime_caps(capabilities: u32) -> (m: u32)
    ensures
        m == capabilities & sensitive_mask(),
{
    capabilities & (runtime_capability::NETWORK | runtime_capability::GRAPHICS | runtime_capability::AUDIO)
}

/// The grant a runtime approval record carries: the granted mask, and
/// whether it is less than the environment's sensitive classes.
#[derive(Clone, Copy, Debug, PartialEq, Eq, Structural)]
pub struct RuntimeGrantSummary {
    pub granted: u32,
    pub partial: bool,
}

/// The grant of an audit record: only an approval change with a non-zero
/// granted mask (the low half of its detail word) has one; it is partial
/// when the mask differs from the environment's sensitive classes.
pub fn runtime_grant_summary(audit: &RuntimeAuditInfo) -> (g: Option<RuntimeGrantSummary>)
    ensures
        audit.kind != SecurityAuditKind::RuntimeApprovalChanged || audit.detail as u32 == 0 ==> g is None,
        audit.kind == SecurityAuditKind::RuntimeApprovalChanged && audit.detail as u32 != 0 ==> g == Some(RuntimeGrantSummary {
            granted: audit.detail as u32,
            partial: audit.detail as u32 != audit.capabilities & sensitive_mask(),
        }),
{
    if audit.kind != SecurityAuditKind::RuntimeApprovalChanged {
        return None;
    }
    let granted = audit.detail as u32;
    if granted == 0 {
        return None;
    }
    Some(RuntimeGrantSummary { granted, partial: granted != sensitive_runtime_caps(audit.capabilities) })
}

/// A runtime environment waiting on (or refused) an approval.
#[derive(Clone, Copy, Debug, PartialEq, Eq, Structural)]
pub struct PendingRuntime {
    pub env_id: u32,
    pub state: RuntimeEnvState,
    pub capabilities: u32,
}

/// Whether the approval buttons act on an environment in this state.
pub open spec fn actionable(state: RuntimeEnvState) -> bool {
    state == RuntimeEnvState::PendingApproval || state == RuntimeEnvState::Denied
}

/// The environment the approval buttons act on: the first of the first
/// `count` listed environments (all of them when fewer are listed) that
/// waits on an approval or was denied.
pub fn first_actionable_runtime(envs: &[RuntimeEnvInfo], count: usize) -> (p: Option<PendingRuntime>)
    ensures
        ({
            let n = if count < envs@.len() { count as int } else { envs@.len() as int };
            match p {
                None => forall|i: int| 0 <= i < n ==> !actionable(#[trigger] envs@[i].state),
                Some(r) => exists|i: int| 0 <= i < n && actionable(#[trigger] envs@[i].state)
                    && (forall|j: int| 0 <= j < i ==> !actionable(#[trigger] envs@[j].state))
                    && r == (PendingRuntime { env_id: envs@[i].env_id, state: envs@[i].state, capabilities: envs@[i].capabilities }),
            }
        }),
{
    let n: usize = if count < envs.len() { count } else { envs.len() };
    let mut i: usize = 0;
    while i < n
        invariant
            n <= envs@.len(),
            n == (if count < envs@.len() { count as int } else { envs@.len() as int }),
            i <= n,
            forall|j: int| 0 <= j < i ==> !actionable(#[trigger] envs@[j].state),
        decreases n - i,
    {
        let env = envs[i];
        if env.state == RuntimeEnvState::PendingApproval || env.state == RuntimeEnvState::Denied {
            return Some(PendingRuntime { env_id: env.env_id, state: env.state, capabilities: env.capabilities });
        }
        i = i + 1;
    }
    None
}

} // verus!
