use serviceos_runtime::abi::{PermissionPolicyState, RuntimeEnvState, RuntimeKind, SecurityAuditKind, ServiceImageId};
use serviceos_runtime::app_permission;
use serviceos_runtime::runtime_capability;
use serviceos_runtime::security_page::{
    audit_kind_name, first_actionable_runtime, image_name, permission_summary, policy_name, runtime_cap_summary,
    runtime_env_state_name, runtime_grant_summary, sensitive_runtime_caps, PendingRuntime,
};
use serviceos_runtime::types::{RuntimeAuditInfo, RuntimeEnvInfo};

fn approval_audit(capabilities: u32, granted: u32) -> RuntimeAuditInfo {
    RuntimeAuditInfo {
        sequence: 7,
        kind: SecurityAuditKind::RuntimeApprovalChanged,
        env_id: 3,
        capabilities,
        detail: granted as u64,
    }
}

#[test]
fn sensitive_caps_cover_only_gated_classes() {
    let caps = runtime_capability::FILE_READ
        | runtime_capability::TERMINAL_IO
        | runtime_capability::NETWORK
        | runtime_capability::GRAPHICS
        | runtime_capability::AUDIO;
    assert_eq!(
        sensitive_runtime_caps(caps),
        runtime_capability::NETWORK | runtime_capability::GRAPHICS | runtime_capability::AUDIO
    );
    assert_eq!(sensitive_runtime_caps(runtime_capability::FILE_READ), 0);
}

#[test]
fn grant_summary_flags_subset_as_partial() {
    let caps = runtime_capability::FILE_READ
        | runtime_capability::NETWORK
        | runtime_capability::GRAPHICS
        | runtime_capability::AUDIO;
    let partial = runtime_grant_summary(&approval_audit(caps, runtime_capability::NETWORK)).expect("granted record decodes");
    assert_eq!(partial.granted, runtime_capability::NETWORK);
    assert!(partial.partial);

    let full = runtime_grant_summary(&approval_audit(
        caps,
        runtime_capability::NETWORK | runtime_capability::GRAPHICS | runtime_capability::AUDIO,
    ))
    .expect("full grant decodes");
    assert!(!full.partial);
}

#[test]
fn grant_summary_ignores_non_approval_and_empty_grants() {
    let mut audit = approval_audit(0, 0);
    audit.kind = SecurityAuditKind::LaunchDenied;
    assert!(runtime_grant_summary(&audit).is_none());
    assert!(runtime_grant_summary(&approval_audit(0, 0)).is_none());
}

#[test]
fn names_of_policies_states_kinds_and_images() {
    assert_eq!(policy_name(PermissionPolicyState::DefaultAllow), "default-allow");
    assert_eq!(policy_name(PermissionPolicyState::Blocked), "blocked");
    assert_eq!(runtime_env_state_name(RuntimeEnvState::PendingApproval), "pending-approval");
    assert_eq!(audit_kind_name(SecurityAuditKind::RuntimeApprovalRequested), "approval-requested");
    assert_eq!(image_name(ServiceImageId::PosixHostTool), "runtime-host");
    assert_eq!(image_name(ServiceImageId::SettingsApp), "settings");
    assert_eq!(image_name(ServiceImageId::LogService), "unknown");
}

#[test]
fn mask_summaries_list_names_in_order_or_a_dash() {
    assert_eq!(permission_summary(0), b"-".to_vec());
    assert_eq!(
        permission_summary(app_permission::NETWORK | app_permission::CONFIG | app_permission::CLIPBOARD),
        b"config,network,clipboard".to_vec()
    );
    assert_eq!(runtime_cap_summary(runtime_capability::AUDIO), b"audio".to_vec());
    assert_eq!(
        runtime_cap_summary(runtime_capability::FILE_READ | runtime_capability::GRAPHICS),
        b"file-read,graphics".to_vec()
    );
    assert_eq!(runtime_cap_summary(0x100), b"-".to_vec());
}

#[test]
fn first_actionable_runtime_is_the_first_pending_or_denied() {
    let env = |env_id: u32, state: RuntimeEnvState| RuntimeEnvInfo {
        env_id,
        kind: RuntimeKind::Posix,
        state,
        capabilities: env_id * 2,
        mount_count: 0,
        var_count: 0,
        active_runs: 0,
    };
    let envs = [
        env(1, RuntimeEnvState::Ready),
        env(2, RuntimeEnvState::Denied),
        env(3, RuntimeEnvState::PendingApproval),
    ];
    assert_eq!(
        first_actionable_runtime(&envs, 3),
        Some(PendingRuntime { env_id: 2, state: RuntimeEnvState::Denied, capabilities: 4 })
    );
    assert_eq!(first_actionable_runtime(&envs, 1), None);
    assert_eq!(first_actionable_runtime(&envs[2..], 9).map(|p| p.env_id), Some(3));
}
