//! The security service's state machine: the launch-policy table of the
//! known applications and the bounded audit log, and the answer to each
//! request. Sending replies, persisting the table and logging are left to
//! the service's loop, which performs the action each request yields.
use vstd::prelude::*;
use vstd::string::StringSliceAdditionalSpecFns;

use crate::abi::{LogSeverity, PermissionPolicyState, SecurityAuditKind, SecurityStatus, SecurityTag, ServiceImageId};
use crate::app_permission;
use crate::error::{Error, Result};
use crate::decode::{image_id_from_word, permission_policy_state_from_word};
use crate::message::{is_request, packed_words, request_with_bytes, request_words, words_for, Handle, RawMessage};

verus! {

/// Number of applications with a launch policy.
pub const MAX_POLICIES: usize = 8;
/// Number of slots of the audit log.
pub const MAX_AUDIT: usize = 24;

/// The launch policy of one application: its image, its name, the
/// permissions it is granted and those among them that are sensitive.
#[derive(Clone, Copy, Debug)]
pub struct PolicyEntry {
    pub image_id: ServiceImageId,
    pub name: &'static str,
    pub permissions: u32,
    pub sensitive: u32,
}

/// The policy table, by position.
pub open spec fn policy_table(index: int) -> Option<PolicyEntry> {
    if index == 0 {
        Some(PolicyEntry { image_id: ServiceImageId::SettingsApp, name: "settings",
            permissions: app_permission::CONFIG | app_permission::NETWORK | app_permission::AUDIO,
            sensitive: app_permission::NETWORK | app_permission::AUDIO })
    } else if index == 1 {
        Some(PolicyEntry { image_id: ServiceImageId::FilesApp, name: "files",
            permissions: app_permission::STORAGE, sensitive: app_permission::STORAGE })
    } else if index == 2 {
        Some(PolicyEntry { image_id: ServiceImageId::MonitorApp, name: "monitor",
            permissions: app_permission::STATUS | app_permission::NETWORK, sensitive: app_permission::NETWORK })
    } else if index == 3 {
        Some(PolicyEntry { image_id: ServiceImageId::TerminalApp, name: "terminal",
            permissions: app_permission::TERMINAL | app_permission::CLIPBOARD, sensitive: app_permission::CLIPBOARD })
    } else if index == 4 {
        Some(PolicyEntry { image_id: ServiceImageId::SoftwareCenterApp, name: "software",
            permissions: app_permission::PACKAGE, sensitive: app_permission::PACKAGE })
    } else if index == 5 {
        Some(PolicyEntry { image_id: ServiceImageId::SysinfoTool, name: "sysinfo",
            permissions: app_permission::TERMINAL, sensitive: 0 })
    } else if index == 6 {
        Some(PolicyEntry { image_id: ServiceImageId::PosixHostTool, name: "runtime-host",
            permissions: app_permission::TERMINAL | app_permission::STORAGE, sensitive: app_permission::STORAGE })
    } else if index == 7 {
        Some(PolicyEntry { image_id: ServiceImageId::CrossBuilderTool, name: "cross-builder",
            permissions: app_permission::STORAGE | app_permission::TERMINAL, sensitive: app_permission::STORAGE })
    } else {
        None
    }
}

/// The permissions the launch policy treats as sensitive wherever they are
/// granted: storage, package, network, audio and clipboard.
pub open spec fn sensitive_kinds() -> u32 {
    app_permission::STORAGE | app_permission::PACKAGE | app_permission::NETWORK | app_permission::AUDIO | app_permission::CLIPBOARD
}

/// The policy table's laws: it has eight entries, at positions 0 to 7; each
/// entry grants some of the eight known permissions, and its sensitive
/// permissions are exactly the sensitive kinds among those it grants (so
/// none is sensitive without being granted); and no application appears
/// twice.
pub proof fn lemma_policy_table_laws(i: int, j: int)
    ensures
        (0 <= i < 8) <==> policy_table(i) is Some,
        policy_table(i) matches Some(e) ==> e.permissions != 0 && e.permissions & 0xff == e.permissions
            && e.sensitive == e.permissions & sensitive_kinds() && e.sensitive & e.permissions == e.sensitive,
        (policy_table(i) is Some && policy_table(j) is Some && i != j) ==> policy_table(i)->0.image_id != policy_table(j)->0.image_id,
{
    assert((0x2u32 | 0x8 | 0x10 | 0x20 | 0x80) == 0xbau32) by (bit_vector);
    assert(sensitive_kinds() == 0xbau32);
    assert((0x1u32 | 0x10 | 0x20) == 0x31u32) by (bit_vector);
    assert(0x31u32 & 0xba == 0x30u32 && 0x31u32 & 0xff == 0x31u32 && (0x10u32 | 0x20) == 0x30u32 && 0x30u32 & 0x31 == 0x30u32) by (bit_vector);
    assert(0x2u32 & 0xba == 0x2u32 && 0x2u32 & 0xff == 0x2u32 && 0x2u32 & 0x2 == 0x2u32) by (bit_vector);
    assert((0x4u32 | 0x10) == 0x14u32 && 0x14u32 & 0xba == 0x10u32 && 0x14u32 & 0xff == 0x14u32 && 0x10u32 & 0x14 == 0x10u32) by (bit_vector);
    assert((0x40u32 | 0x80) == 0xc0u32 && 0xc0u32 & 0xba == 0x80u32 && 0xc0u32 & 0xff == 0xc0u32 && 0x80u32 & 0xc0 == 0x80u32) by (bit_vector);
    assert(0x8u32 & 0xba == 0x8u32 && 0x8u32 & 0xff == 0x8u32 && 0x8u32 & 0x8 == 0x8u32) by (bit_vector);
    assert(0x40u32 & 0xba == 0u32 && 0x40u32 & 0xff == 0x40u32 && 0u32 & 0x40 == 0u32) by (bit_vector);
    assert((0x40u32 | 0x2) == 0x42u32 && (0x2u32 | 0x40) == 0x42u32 && 0x42u32 & 0xba == 0x2u32 && 0x42u32 & 0xff == 0x42u32
        && 0x2u32 & 0x42 == 0x2u32) by (bit_vector);
}

/// The policy at `index` of the table, if any.
pub fn policy_entry(index: usize) -> (e: Option<PolicyEntry>)
    ensures
        e == policy_table(index as int),
{
    if index == 0 {
        Some(PolicyEntry { image_id: ServiceImageId::SettingsApp, name: "settings",
            permissions: app_permission::CONFIG | app_permission::NETWORK | app_permission::AUDIO,
            sensitive: app_permission::NETWORK | app_permission::AUDIO })
    } else if index == 1 {
        Some(PolicyEntry { image_id: ServiceImageId::FilesApp, name: "files",
            permissions: app_permission::STORAGE, sensitive: app_permission::STORAGE })
    } else if index == 2 {
        Some(PolicyEntry { image_id: ServiceImageId::MonitorApp, name: "monitor",
            permissions: app_permission::STATUS | app_permission::NETWORK, sensitive: app_permission::NETWORK })
    } else if index == 3 {
        Some(PolicyEntry { image_id: ServiceImageId::TerminalApp, name: "terminal",
            permissions: app_permission::TERMINAL | app_permission::CLIPBOARD, sensitive: app_permission::CLIPBOARD })
    } else if index == 4 {
        Some(PolicyEntry { image_id: ServiceImageId::SoftwareCenterApp, name: "software",
            permissions: app_permission::PACKAGE, sensitive: app_permission::PACKAGE })
    } else if index == 5 {
        Some(PolicyEntry { image_id: ServiceImageId::SysinfoTool, name: "sysinfo",
            permissions: app_permission::TERMINAL, sensitive: 0 })
    } else if index == 6 {
        Some(PolicyEntry { image_id: ServiceImageId::PosixHostTool, name: "runtime-host",
            permissions: app_permission::TERMINAL | app_permission::STORAGE, sensitive: app_permission::STORAGE })
    } else if index == 7 {
        Some(PolicyEntry { image_id: ServiceImageId::CrossBuilderTool, name: "cross-builder",
            permissions: app_permission::STORAGE | app_permission::TERMINAL, sensitive: app_permission::STORAGE })
    } else {
        None
    }
}

/// The position of `image` in the policy table, if it has a policy.
pub open spec fn policy_index_of(image: ServiceImageId) -> Option<usize> {
    match image {
        ServiceImageId::SettingsApp => Some(0usize),
        ServiceImageId::FilesApp => Some(1usize),
        ServiceImageId::MonitorApp => Some(2usize),
        ServiceImageId::TerminalApp => Some(3usize),
        ServiceImageId::SoftwareCenterApp => Some(4usize),
        ServiceImageId::SysinfoTool => Some(5usize),
        ServiceImageId::PosixHostTool => Some(6usize),
        ServiceImageId::CrossBuilderTool => Some(7usize),
        _ => None,
    }
}

/// The position of `image` in the policy table: the first entry for that
/// image, when there is one.
pub fn policy_index(image: ServiceImageId) -> (i: Option<usize>)
    ensures
        i == policy_index_of(image),
        i matches Some(k) ==> policy_table(k as int) matches Some(e) && e.image_id == image,
        i is None ==> forall|k: int| 0 <= k < MAX_POLICIES ==> (#[trigger] policy_table(k) matches Some(e) && e.image_id != image),
{
    match image {
        ServiceImageId::SettingsApp => Some(0),
        ServiceImageId::FilesApp => Some(1),
        ServiceImageId::MonitorApp => Some(2),
        ServiceImageId::TerminalApp => Some(3),
        ServiceImageId::SoftwareCenterApp => Some(4),
        ServiceImageId::SysinfoTool => Some(5),
        ServiceImageId::PosixHostTool => Some(6),
        ServiceImageId::CrossBuilderTool => Some(7),
        _ => None,
    }
}

/// One slot of the audit log.
#[derive(Clone, Copy, Debug, PartialEq, Eq, Structural)]
pub struct AuditSlot {
    pub occupied: bool,
    pub sequence: u32,
    pub kind: SecurityAuditKind,
    pub subject: ServiceImageId,
    pub policy: PermissionPolicyState,
    pub detail: u64,
}

impl AuditSlot {
    /// A free slot.
    pub fn empty() -> (s: AuditSlot)
        ensures
            !s.occupied,
            s == (AuditSlot { occupied: false, sequence: 0, kind: SecurityAuditKind::PolicyChanged,
                subject: ServiceImageId::RootManager, policy: PermissionPolicyState::DefaultAllow, detail: 0 }),
    {
        AuditSlot {
            occupied: false,
            sequence: 0,
            kind: SecurityAuditKind::PolicyChanged,
            subject: ServiceImageId::RootManager,
            policy: PermissionPolicyState::DefaultAllow,
            detail: 0,
        }
    }
}

/// The audit kind a word names, if any.
pub open spec fn audit_kind_of(w: u64) -> Option<SecurityAuditKind> {
    if w as u32 == 0 {
        Some(SecurityAuditKind::PolicyChanged)
    } else if w as u32 == 1 {
        Some(SecurityAuditKind::LaunchDenied)
    } else if w as u32 == 2 {
        Some(SecurityAuditKind::RuntimeApprovalRequested)
    } else if w as u32 == 3 {
        Some(SecurityAuditKind::RuntimeApprovalChanged)
    } else {
        None
    }
}

/// Decodes an audit kind word; `None` for a word that names no kind.
pub fn audit_kind_from_word(w: u64) -> (k: Option<SecurityAuditKind>)
    ensures
        k == audit_kind_of(w),
{
    let c = w as u32;
    if c == 0 {
        Some(SecurityAuditKind::PolicyChanged)
    } else if c == 1 {
        Some(SecurityAuditKind::LaunchDenied)
    } else if c == 2 {
        Some(SecurityAuditKind::RuntimeApprovalRequested)
    } else if c == 3 {
        Some(SecurityAuditKind::RuntimeApprovalChanged)
    } else {
        None
    }
}

/// A slot is listed under `filter` when it is occupied and, with a filter,
/// its kind is the one the filter word names.
pub open spec fn audit_listed(slot: AuditSlot, filter: Option<u64>) -> bool {
    slot.occupied && match filter {
        None => true,
        Some(w) => audit_kind_of(w) == Some(slot.kind),
    }
}

/// The `index`-th slot (from zero, in slot order) listed under `filter`.
pub open spec fn select_from(slots: Seq<AuditSlot>, index: nat, filter: Option<u64>) -> Option<AuditSlot>
    decreases slots.len(),
{
    if slots.len() == 0 {
        None
    } else if audit_listed(slots[0], filter) {
        if index == 0 {
            Some(slots[0])
        } else {
            select_from(slots.drop_first(), (index - 1) as nat, filter)
        }
    } else {
        select_from(slots.drop_first(), index, filter)
    }
}

/// The `index`-th audit entry listed under `filter`, if there is one.
pub fn select_audit(audits: &[AuditSlot; 24], index: usize, filter: Option<u64>) -> (r: Option<AuditSlot>)
    ensures
        r == select_from(audits@, index as nat, filter),
{
    let mut i: usize = 0;
    let mut remaining: usize = index;
    assert(audits@.subrange(0, 24) =~= audits@);
    while i < 24
        invariant
            i <= 24,
            remaining <= index,
            select_from(audits@, index as nat, filter) == select_from(audits@.subrange(i as int, 24), remaining as nat, filter),
        decreases 24 - i,
    {
        let slot = audits[i];
        let ghost rest = audits@.subrange(i as int, 24);
        proof {
            assert(rest[0] == slot);
            assert(rest.drop_first() =~= audits@.subrange(i + 1, 24));
        }
        let listed = slot.occupied && match filter {
            None => true,
            Some(w) => match audit_kind_from_word(w) {
                Some(k) => k == slot.kind,
                None => false,
            },
        };
        if listed {
            if remaining == 0 {
                return Some(slot);
            }
            remaining = remaining - 1;
        }
        i = i + 1;
    }
    proof {
        assert(audits@.subrange(24, 24).len() == 0);
    }
    None
}

/// The first free slot, if any.
pub open spec fn first_free(slots: Seq<AuditSlot>) -> Option<nat>
    decreases slots.len(),
{
    if slots.len() == 0 {
        None
    } else if !slots[0].occupied {
        Some(0)
    } else {
        match first_free(slots.drop_first()) {
            Some(k) => Some(k + 1),
            None => None,
        }
    }
}

/// The slot a new audit entry goes to: the first free one, else slot zero.
pub open spec fn record_slot(slots: Seq<AuditSlot>) -> nat {
    match first_free(slots) {
        Some(k) => k,
        None => 0,
    }
}

proof fn lemma_first_free_bound(slots: Seq<AuditSlot>)
    ensures
        first_free(slots) matches Some(k) ==> k < slots.len() && !slots[k as int].occupied
            && forall|j: int| 0 <= j < k ==> slots[j].occupied,
        first_free(slots) is None ==> forall|j: int| 0 <= j < slots.len() ==> slots[j].occupied,
    decreases slots.len(),
{
    if slots.len() > 0 {
        lemma_first_free_bound(slots.drop_first());
        assert forall|j: int| 1 <= j < slots.len() implies slots[j] == slots.drop_first()[j - 1] by {}
    }
}

/// The entry an audit record writes.
pub open spec fn audit_entry(sequence: u32, kind: SecurityAuditKind, subject: ServiceImageId, policy: PermissionPolicyState, detail: u64) -> AuditSlot {
    AuditSlot { occupied: true, sequence, kind, subject, policy, detail }
}

/// The sequence number after `n`: one more, saturating.
pub open spec fn next_seq(n: u32) -> u32 {
    if n == u32::MAX { n } else { (n + 1) as u32 }
}

/// Records an audit entry in the first free slot (slot zero once the log
/// is full), numbered `next_sequence`, and advances the sequence number.
pub fn record_audit(audits: &mut [AuditSlot; 24], next_sequence: &mut u32, kind: SecurityAuditKind, subject: ServiceImageId, policy: PermissionPolicyState, detail: u64)
    ensures
        final(audits)@ == old(audits)@.update(record_slot(old(audits)@) as int, audit_entry(*old(next_sequence), kind, subject, policy, detail)),
        *final(next_sequence) == next_seq(*old(next_sequence)),
        record_slot(old(audits)@) < 24,
{
    proof {
        lemma_first_free_bound(audits@);
    }
    let mut index: usize = 0;
    let mut i: usize = 0;
    let mut found = false;
    while i < 24
        invariant_except_break
            i <= 24,
            !found,
            forall|j: int| 0 <= j < i ==> audits@[j].occupied,
        invariant
            audits@ == old(audits)@,
        ensures
            found ==> index < 24 && !audits@[index as int].occupied && forall|j: int| 0 <= j < index ==> audits@[j].occupied,
            !found ==> forall|j: int| 0 <= j < 24 ==> audits@[j].occupied,
        decreases 24 - i,
    {
        if !audits[i].occupied {
            index = i;
            found = true;
            break;
        }
        i = i + 1;
    }
    if !found {
        index = 0;
    }
    proof {
        lemma_first_free_bound(audits@);
        if found {
            match first_free(audits@) {
                Some(k) => {
                    if k > index {
                        assert(audits@[index as int].occupied);
                    }
                },
                None => {
                    assert(audits@[index as int].occupied);
                },
            }
        }
    }
    let n = *next_sequence;
    audits[index] = AuditSlot { occupied: true, sequence: n, kind, subject, policy, detail };
    *next_sequence = if n == u32::MAX { n } else { n + 1 };
}

} // verus!

verus! {

/// The security service's state: the policy of each table entry, the audit
/// log, and the number the next audit entry gets.
#[derive(Clone, Copy, Debug)]
pub struct SecurityState {
    pub policies: [PermissionPolicyState; 8],
    pub audits: [AuditSlot; 24],
    pub next_sequence: u32,
}

impl SecurityState {
    /// Every application on its default policy, an empty audit log, and
    /// numbering from one.
    pub fn new() -> (s: SecurityState)
        ensures
            forall|i: int| 0 <= i < 8 ==> s.policies@[i] == PermissionPolicyState::DefaultAllow,
            forall|i: int| 0 <= i < 24 ==> !s.audits@[i].occupied,
            s.next_sequence == 1,
    {
        let policies = [PermissionPolicyState::DefaultAllow; 8];
        let audits = [AuditSlot::empty(); 24];
        SecurityState { policies, audits, next_sequence: 1 }
    }
}

/// What the service does after a request: nothing, send a reply on the
/// request's reply channel and close it, or, for a policy change, persist
/// the table, log the change and then send the reply.
#[derive(Debug)]
pub enum SecurityAction {
    Ignore,
    Reply { to: Handle, reply: RawMessage },
    PolicyChanged { to: Handle, reply: RawMessage, image: ServiceImageId, policy: PermissionPolicyState },
}

/// The words of a policy reply: success, the image, its permissions, its
/// current policy, its sensitive permissions, the name's length and the
/// name.
pub open spec fn policy_reply_words(e: PolicyEntry, p: PermissionPolicyState) -> Seq<u64> {
    seq![SecurityStatus::Success.spec_code() as u64, e.image_id.spec_code() as u64, e.permissions as u64,
        p.spec_code() as u64, e.sensitive as u64, e.name.spec_bytes().len() as u64] + packed_words(e.name.spec_bytes())
}

/// The words of a six-word not-found reply.
pub open spec fn not_found_words() -> Seq<u64> {
    seq![SecurityStatus::NotFound.spec_code() as u64, 0u64, 0u64, 0u64, 0u64, 0u64]
}

/// The words of an audit reply for `slot`.
pub open spec fn audit_reply_words(slot: AuditSlot) -> Seq<u64> {
    seq![SecurityStatus::Success.spec_code() as u64, slot.sequence as u64, slot.kind.spec_code() as u64,
        slot.subject.spec_code() as u64, slot.policy.spec_code() as u64, slot.detail]
}

/// The action is a reply on `to` with the given tag and words.
pub open spec fn replies(a: SecurityAction, to: Handle, tag: u32, ws: Seq<u64>) -> bool {
    a matches SecurityAction::Reply { to: t, reply: m } && t == to && is_request(m, tag, ws)
}

/// A request carries a reply channel and at least `min` words.
pub open spec fn answerable(r: RawMessage, min: u32) -> bool {
    r.handle_count >= 1 && r.word_count >= min
}

/// The reply of a policy lookup for table entry `e` at position `i`, or
/// `None` when the entry's name cannot travel in one message.
pub open spec fn policy_answer(s: SecurityState, to: Handle, tag: u32, found: Option<(usize, PolicyEntry)>, out: Result<SecurityAction>) -> bool {
    match found {
        Some((i, e)) => if words_for(e.name.spec_bytes().len()) > 10 {
            out == Err::<SecurityAction, Error>(Error::BufferTooSmall)
        } else {
            out matches Ok(a) && replies(a, to, tag, policy_reply_words(e, s.policies@[i as int]))
        },
        None => out matches Ok(a) && replies(a, to, tag, not_found_words()),
    }
}

/// The table entry that position `i` names, with its position.
pub open spec fn entry_at(i: usize) -> Option<(usize, PolicyEntry)> {
    match policy_table(i as int) {
        Some(e) => Some((i, e)),
        None => None,
    }
}

/// The table entry of `image`, with its position.
pub open spec fn entry_of(image: ServiceImageId) -> Option<(usize, PolicyEntry)> {
    match policy_index_of(image) {
        Some(i) => Some((i, policy_table(i as int).unwrap())),
        None => None,
    }
}

/// The whole behaviour of the service on one request: `before` and
/// `request` give `after` and the outcome `out`.
pub open spec fn security_step(before: SecurityState, request: RawMessage, after: SecurityState, out: Result<SecurityAction>) -> bool {
    let to = request.handles[0];
    if request.tag == SecurityTag::PolicyListRequest.spec_code() {
        &&& after == before
        &&& !answerable(request, 1) ==> (out matches Ok(SecurityAction::Ignore))
        &&& answerable(request, 1) ==> policy_answer(before, to, SecurityTag::PolicyListReply.spec_code(), entry_at(request.words[0] as usize), out)
    } else if request.tag == SecurityTag::PolicyInfoRequest.spec_code() {
        &&& after == before
        &&& !answerable(request, 1) ==> (out matches Ok(SecurityAction::Ignore))
        &&& answerable(request, 1) ==> policy_answer(before, to, SecurityTag::PolicyInfoReply.spec_code(), entry_of(image_id_from_word(request.words[0])), out)
    } else if request.tag == SecurityTag::PolicySetRequest.spec_code() {
        let image = image_id_from_word(request.words[0]);
        let policy = permission_policy_state_from_word(request.words[1]);
        if !answerable(request, 2) {
            after == before && (out matches Ok(SecurityAction::Ignore))
        } else {
            match policy_index_of(image) {
                Some(i) => {
                    &&& after.policies@ == before.policies@.update(i as int, policy)
                    &&& after.audits@ == before.audits@.update(record_slot(before.audits@) as int,
                        audit_entry(before.next_sequence, SecurityAuditKind::PolicyChanged, image, policy, 0))
                    &&& after.next_sequence == next_seq(before.next_sequence)
                    &&& out matches Ok(SecurityAction::PolicyChanged { to: t, reply: m, image: im, policy: p })
                    &&& t == to && im == image && p == policy
                    &&& is_request(m, SecurityTag::PolicySetReply.spec_code(), seq![SecurityStatus::Success.spec_code() as u64])
                },
                None => after == before && (out matches Ok(a)
                    && replies(a, to, SecurityTag::PolicySetReply.spec_code(), seq![SecurityStatus::NotFound.spec_code() as u64])),
            }
        }
    } else if request.tag == SecurityTag::AuditListRequest.spec_code() {
        let filter = if request.word_count >= 2 { Some(request.words[1]) } else { None };
        &&& after == before
        &&& !answerable(request, 1) ==> (out matches Ok(SecurityAction::Ignore))
        &&& answerable(request, 1) ==> (out matches Ok(a) && match select_from(before.audits@, (request.words[0] as usize) as nat, filter) {
            Some(slot) => replies(a, to, SecurityTag::AuditListReply.spec_code(), audit_reply_words(slot)),
            None => replies(a, to, SecurityTag::AuditListReply.spec_code(), not_found_words()),
        })
    } else {
        after == before && (out matches Ok(SecurityAction::Ignore))
    }
}

/// The policy reply for table entry `e` under policy `p`; `BufferTooSmall`
/// when the name does not fit one message.
pub fn encode_policy_reply(tag: u32, e: PolicyEntry, p: PermissionPolicyState) -> (r: Result<RawMessage>)
    ensures
        words_for(e.name.spec_bytes().len()) > 10 ==> r == Err::<RawMessage, Error>(Error::BufferTooSmall),
        words_for(e.name.spec_bytes().len()) <= 10 ==> (r matches Ok(m) && is_request(m, tag, policy_reply_words(e, p))),
{
    let name = e.name.as_bytes();
    if name.len() > 80 {
        return Err(Error::BufferTooSmall);
    }
    let head: [u64; 6] = [SecurityStatus::Success.code() as u64, e.image_id.code() as u64, e.permissions as u64,
        p.code() as u64, e.sensitive as u64, name.len() as u64];
    assert(head@ =~= seq![SecurityStatus::Success.spec_code() as u64, e.image_id.spec_code() as u64, e.permissions as u64,
        p.spec_code() as u64, e.sensitive as u64, e.name.spec_bytes().len() as u64]);
    Ok(request_with_bytes(tag, head.as_slice(), name))
}

fn not_found_reply(tag: u32) -> (m: RawMessage)
    ensures
        is_request(m, tag, not_found_words()),
{
    let ws: [u64; 6] = [SecurityStatus::NotFound.code() as u64, 0, 0, 0, 0, 0];
    assert(ws@ =~= not_found_words());
    request_words(tag, ws.as_slice())
}

fn answer_policy(state: &SecurityState, to: Handle, tag: u32, found: Option<(usize, PolicyEntry)>) -> (out: Result<SecurityAction>)
    requires
        found matches Some((i, _)) ==> i < 8,
    ensures
        policy_answer(*state, to, tag, found, out),
{
    match found {
        Some((i, e)) => match encode_policy_reply(tag, e, state.policies[i]) {
            Ok(reply) => Ok(SecurityAction::Reply { to, reply }),
            Err(err) => Err(err),
        },
        None => Ok(SecurityAction::Reply { to, reply: not_found_reply(tag) }),
    }
}

/// Answers one request: reads or changes the policy table, lists the audit
/// log, and says what the service must do next (see `security_step`).
/// Requests without a reply channel or with too few words are ignored.
pub fn handle_request(state: &mut SecurityState, request: &RawMessage) -> (out: Result<SecurityAction>)
    ensures
        security_step(*old(state), *request, *final(state), out),
{
    let to = request.handles[0];
    if request.tag == SecurityTag::PolicyListRequest.code() {
        if request.handle_count < 1 || request.word_count < 1 {
            return Ok(SecurityAction::Ignore);
        }
        let index = request.words[0] as usize;
        let found = match policy_entry(index) {
            Some(e) => Some((index, e)),
            None => None,
        };
        answer_policy(state, to, SecurityTag::PolicyListReply.code(), found)
    } else if request.tag == SecurityTag::PolicyInfoRequest.code() {
        if request.handle_count < 1 || request.word_count < 1 {
            return Ok(SecurityAction::Ignore);
        }
        let image = image_id_from_word(request.words[0]);
        let found = match policy_index(image) {
            Some(i) => match policy_entry(i) {
                Some(e) => Some((i, e)),
                None => None,
            },
            None => None,
        };
        answer_policy(state, to, SecurityTag::PolicyInfoReply.code(), found)
    } else if request.tag == SecurityTag::PolicySetRequest.code() {
        if request.handle_count < 1 || request.word_count < 2 {
            return Ok(SecurityAction::Ignore);
        }
        let image = image_id_from_word(request.words[0]);
        let policy = permission_policy_state_from_word(request.words[1]);
        match policy_index(image) {
            Some(i) => {
                state.policies[i] = policy;
                record_audit(&mut state.audits, &mut state.next_sequence, SecurityAuditKind::PolicyChanged, image, policy, 0);
                let reply = crate::message::request1(SecurityTag::PolicySetReply.code(), SecurityStatus::Success.code() as u64);
                Ok(SecurityAction::PolicyChanged { to, reply, image, policy })
            },
            None => {
                let reply = crate::message::request1(SecurityTag::PolicySetReply.code(), SecurityStatus::NotFound.code() as u64);
                Ok(SecurityAction::Reply { to, reply })
            },
        }
    } else if request.tag == SecurityTag::AuditListRequest.code() {
        if request.handle_count < 1 || request.word_count < 1 {
            return Ok(SecurityAction::Ignore);
        }
        let index = request.words[0] as usize;
        let filter = if request.word_count >= 2 { Some(request.words[1]) } else { None };
        let tag = SecurityTag::AuditListReply.code();
        let reply = match select_audit(&state.audits, index, filter) {
            Some(slot) => {
                let ws: [u64; 6] = [SecurityStatus::Success.code() as u64, slot.sequence as u64, slot.kind.code() as u64,
                    slot.subject.code() as u64, slot.policy.code() as u64, slot.detail];
                assert(ws@ =~= audit_reply_words(slot));
                request_words(tag, ws.as_slice())
            },
            None => not_found_reply(tag),
        };
        Ok(SecurityAction::Reply { to, reply })
    } else {
        Ok(SecurityAction::Ignore)
    }
}

/// The log record of a policy change: informational when the table was
/// persisted, a warning when it was not; the image and the policy, with
/// the persisted flag in bit 32 of the second argument.
pub fn policy_change_log(image: ServiceImageId, policy: PermissionPolicyState, persisted: bool) -> (r: (LogSeverity, u64, u64))
    ensures
        r.0 == if persisted { LogSeverity::Info } else { LogSeverity::Warn },
        r.1 == image.spec_code() as u64,
        r.2 == policy.spec_code() as u64 + if persisted { 0x1_0000_0000u64 } else { 0u64 },
{
    let severity = if persisted { LogSeverity::Info } else { LogSeverity::Warn };
    let flag: u64 = if persisted { 0x1_0000_0000 } else { 0 };
    (severity, image.code() as u64, policy.code() as u64 + flag)
}

/// Setting an application's policy and then asking for its policy gives
/// back the policy that was set.
pub proof fn lemma_policy_read_after_write(s0: SecurityState, set: RawMessage, s1: SecurityState, o1: Result<SecurityAction>,
    info: RawMessage, s2: SecurityState, o2: Result<SecurityAction>)
    requires
        security_step(s0, set, s1, o1),
        security_step(s1, info, s2, o2),
        set.tag == SecurityTag::PolicySetRequest.spec_code(),
        answerable(set, 2),
        info.tag == SecurityTag::PolicyInfoRequest.spec_code(),
        answerable(info, 1),
        image_id_from_word(info.words[0]) == image_id_from_word(set.words[0]),
        policy_index_of(image_id_from_word(set.words[0])) is Some,
        o2 is Ok,
    ensures
        o2 matches Ok(SecurityAction::Reply { to: _, reply: m })
            && m.words[3] == permission_policy_state_from_word(set.words[1]).spec_code() as u64,
{
    let i = policy_index_of(image_id_from_word(set.words[0])).unwrap();
    let e = policy_table(i as int).unwrap();
    assert(s1.policies@[i as int] == permission_policy_state_from_word(set.words[1]));
    if let Ok(SecurityAction::Reply { to: _, reply: m }) = o2 {
        assert(m.words[3] == policy_reply_words(e, s1.policies@[i as int])[3]);
    }
}

} // verus!
