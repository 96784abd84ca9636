//! The settings app's backup page: the request/reply machine it drives over
//! the channel root-manager grants it to the backup service, and the
//! explainer state shown while that route is absent or broken. Replies put
//! their status first, zero meaning success.
use vstd::prelude::*;
use vstd::string::StringSliceAdditionalSpecFns;

use crate::message::{
    is_request, message_bytes, packed_words, request1, request_with_bytes, unpack_from, unpack_outcome,
    words_for, Handle, RawMessage, INVALID_HANDLE,
};

verus! {

pub const BACKUP_TAG_EXPORT_REQUEST: u32 = 0x230;
pub const BACKUP_TAG_EXPORT_REPLY: u32 = 0x231;
pub const BACKUP_TAG_RESTORE_REQUEST: u32 = 0x232;
pub const BACKUP_TAG_RESTORE_REPLY: u32 = 0x233;
pub const BACKUP_TAG_LIST_REQUEST: u32 = 0x234;
pub const BACKUP_TAG_LIST_REPLY: u32 = 0x235;
pub const BACKUP_TAG_DELETE_REQUEST: u32 = 0x236;
pub const BACKUP_TAG_DELETE_REPLY: u32 = 0x237;

pub const BACKUP_ERROR_INVALID: u64 = 1;
pub const BACKUP_ERROR_UNKNOWN_SCOPE: u64 = 2;
pub const BACKUP_ERROR_CAPACITY: u64 = 3;
pub const BACKUP_ERROR_NOT_FOUND: u64 = 4;
pub const BACKUP_ERROR_BAD_MAGIC: u64 = 5;
pub const BACKUP_ERROR_BAD_VERSION: u64 = 6;
pub const BACKUP_ERROR_CORRUPT: u64 = 7;
pub const BACKUP_ERROR_STORAGE: u64 = 8;
pub const BACKUP_ERROR_UNSIGNED: u64 = 9;
pub const BACKUP_ERROR_BAD_SIG: u64 = 10;

pub const BACKUP_SCOPE_CONFIG: u32 = 1;
pub const BACKUP_SCOPE_ACCOUNTS: u32 = 2;
pub const BACKUP_SCOPE_PACKAGES: u32 = 4;
/// Every scope the service knows.
pub const BACKUP_SCOPE_KNOWN_MASK: u32 = 7;

/// Longest snapshot name the service accepts.
pub const BACKUP_NAME_MAX_BYTES: usize = 32;
/// Longest listed path (`backups/<name>`).
pub const BACKUP_PATH_MAX_BYTES: usize = 48;
/// Rows the page keeps of a listing.
pub const BACKUP_LIST_ROWS: usize = 8;
/// Status of the list reply that ends a listing.
pub const BACKUP_LIST_END_STATUS: u64 = 2;
/// Most list round trips one refresh makes.
pub const LIST_CALL_CAP: usize = 32;

/// One listed snapshot.
#[derive(Clone, Copy, Debug, PartialEq, Eq)]
pub struct BackupSnapshotEntry {
    pub index: usize,
    pub path: [u8; 48],
    pub path_len: usize,
    /// The snapshot's plain name (the path after its first `/`), the form
    /// the restore and delete requests take.
    pub name: [u8; 32],
    pub name_len: usize,
    /// A signature sidecar exists, and the key id it names (zero when the
    /// sidecar is unreadable).
    pub signed: bool,
    pub key_id: u64,
}

/// What an export produced.
#[derive(Clone, Copy, Debug, PartialEq, Eq)]
pub struct BackupExportInfo {
    pub name: [u8; 32],
    pub name_len: usize,
    pub record_count: u32,
    pub blob_size: usize,
    pub signed: bool,
    pub key_id: u64,
}

/// What a restore (or its dry run) selected.
#[derive(Clone, Copy, Debug, PartialEq, Eq)]
pub struct BackupRestoreReport {
    pub dry_run: bool,
    pub selected_scope_mask: u32,
    pub selected_records: u32,
    pub total_bytes: u64,
    /// The signature gate passed, and the key it named.
    pub verified: bool,
    pub key_id: u64,
}

/// Why a backup operation failed: the service's error codes, a failed
/// round trip, or a reply of the wrong shape.
#[derive(Clone, Copy, Debug, PartialEq, Eq, Structural)]
pub enum BackupOpError {
    Invalid,
    UnknownScope,
    CapacityExceeded,
    NotFound,
    BadMagic,
    UnsupportedVersion,
    Corrupt,
    StorageFailure,
    /// The snapshot has no signature; restore refuses it.
    Unsigned,
    /// The signature is malformed, foreign, or does not match.
    BadSignature,
    Transport,
    Malformed,
}

/// Why the page cannot reach the service.
#[derive(Clone, Copy, Debug, PartialEq, Eq, Structural)]
pub enum BackupUnavailable {
    /// No route was granted to this app.
    NoRoute,
    /// A route existed but a round trip over it failed.
    TransportFailure,
}

/// What the page is doing.
#[derive(Clone, Copy, Debug, PartialEq, Eq, Structural)]
pub enum BackupPhase {
    Idle,
    Listing,
    Ready,
    Exporting,
    Restoring,
    Deleting,
}

/// The page's modal prompts: a restore shows its dry-run report before the
/// destructive apply; a delete asks once.
#[derive(Clone, Copy, Debug, PartialEq, Eq)]
pub enum BackupPrompt {
    RestoreConfirm(BackupRestoreReport),
    DeleteConfirm,
}

/// The service error a status code names.
pub open spec fn error_of_code(code: u64) -> Option<BackupOpError> {
    if code == BACKUP_ERROR_INVALID { Some(BackupOpError::Invalid) }
    else if code == BACKUP_ERROR_UNKNOWN_SCOPE { Some(BackupOpError::UnknownScope) }
    else if code == BACKUP_ERROR_CAPACITY { Some(BackupOpError::CapacityExceeded) }
    else if code == BACKUP_ERROR_NOT_FOUND { Some(BackupOpError::NotFound) }
    else if code == BACKUP_ERROR_BAD_MAGIC { Some(BackupOpError::BadMagic) }
    else if code == BACKUP_ERROR_BAD_VERSION { Some(BackupOpError::UnsupportedVersion) }
    else if code == BACKUP_ERROR_CORRUPT { Some(BackupOpError::Corrupt) }
    else if code == BACKUP_ERROR_STORAGE { Some(BackupOpError::StorageFailure) }
    else if code == BACKUP_ERROR_UNSIGNED { Some(BackupOpError::Unsigned) }
    else if code == BACKUP_ERROR_BAD_SIG { Some(BackupOpError::BadSignature) }
    else { None }
}

/// The service error a status code names.
pub fn backup_error_from_code(code: u64) -> (e: Option<BackupOpError>)
    ensures
        e == error_of_code(code),
{
    if code == BACKUP_ERROR_INVALID { Some(BackupOpError::Invalid) }
    else if code == BACKUP_ERROR_UNKNOWN_SCOPE { Some(BackupOpError::UnknownScope) }
    else if code == BACKUP_ERROR_CAPACITY { Some(BackupOpError::CapacityExceeded) }
    else if code == BACKUP_ERROR_NOT_FOUND { Some(BackupOpError::NotFound) }
    else if code == BACKUP_ERROR_BAD_MAGIC { Some(BackupOpError::BadMagic) }
    else if code == BACKUP_ERROR_BAD_VERSION { Some(BackupOpError::UnsupportedVersion) }
    else if code == BACKUP_ERROR_CORRUPT { Some(BackupOpError::Corrupt) }
    else if code == BACKUP_ERROR_STORAGE { Some(BackupOpError::StorageFailure) }
    else if code == BACKUP_ERROR_UNSIGNED { Some(BackupOpError::Unsigned) }
    else if code == BACKUP_ERROR_BAD_SIG { Some(BackupOpError::BadSignature) }
    else { None }
}

/// The error a failure status stands for: its service error, or
/// `Malformed` for a code the service does not define.
pub open spec fn failure_of(code: u64) -> BackupOpError {
    match error_of_code(code) {
        Some(e) => e,
        None => BackupOpError::Malformed,
    }
}

fn failure_from_code(code: u64) -> (e: BackupOpError)
    ensures
        e == failure_of(code),
{
    match backup_error_from_code(code) {
        Some(e) => e,
        None => BackupOpError::Malformed,
    }
}

/// The name the page shows for an error.
pub open spec fn error_text(error: BackupOpError) -> &'static str {
    match error {
        BackupOpError::Invalid => "INVALID",
        BackupOpError::UnknownScope => "SCOPE",
        BackupOpError::CapacityExceeded => "CAPACITY",
        BackupOpError::NotFound => "NOT-FOUND",
        BackupOpError::BadMagic => "MAGIC",
        BackupOpError::UnsupportedVersion => "VERSION",
        BackupOpError::Corrupt => "CORRUPT",
        BackupOpError::StorageFailure => "STORAGE",
        BackupOpError::Unsigned => "UNSIGNED",
        BackupOpError::BadSignature => "BAD-SIG",
        BackupOpError::Transport => "TRANSPORT",
        BackupOpError::Malformed => "MALFORMED",
    }
}

/// The name the page shows for an error.
pub fn backup_error_name(error: BackupOpError) -> (t: &'static str)
    ensures
        t == error_text(error),
{
    match error {
        BackupOpError::Invalid => "INVALID",
        BackupOpError::UnknownScope => "SCOPE",
        BackupOpError::CapacityExceeded => "CAPACITY",
        BackupOpError::NotFound => "NOT-FOUND",
        BackupOpError::BadMagic => "MAGIC",
        BackupOpError::UnsupportedVersion => "VERSION",
        BackupOpError::Corrupt => "CORRUPT",
        BackupOpError::StorageFailure => "STORAGE",
        BackupOpError::Unsigned => "UNSIGNED",
        BackupOpError::BadSignature => "BAD-SIG",
        BackupOpError::Transport => "TRANSPORT",
        BackupOpError::Malformed => "MALFORMED",
    }
}

/// The signing tail of a reply whose packed payload of `payload_len` bytes
/// follows `base` fixed words: the two words after the payload (signed,
/// key id) when the reply carries them, else unsigned with key id zero.
pub open spec fn signing_tail_of(r: RawMessage, base: nat, payload_len: nat) -> (bool, u64) {
    let tail = base + words_for(payload_len);
    if r.word_count >= tail + 2 {
        (r.words[tail as int] != 0, r.words[tail + 1 as int])
    } else {
        (false, 0)
    }
}

fn signing_tail(r: &RawMessage, base: usize, payload_len: usize) -> (t: (bool, u64))
    requires
        r.wf(),
        base <= 16,
        payload_len <= 128,
    ensures
        t == signing_tail_of(*r, base as nat, payload_len as nat),
{
    let tail = base + payload_len / 8 + if payload_len % 8 == 0 { 0 } else { 1 };
    if r.word_count as usize >= tail + 2 {
        (r.words[tail] != 0, r.words[tail + 1])
    } else {
        (false, 0)
    }
}

/// The startup handle slot of the backup route: slot 7, present only when
/// the app received at least eight handles.
pub fn backup_route_position(handle_count: usize) -> (p: Option<usize>)
    ensures
        p == (if handle_count >= 8 { Some(7usize) } else { None }),
{
    if handle_count >= 8 { Some(7) } else { None }
}

/// The page's state.
pub struct BackupUiState {
    pub unavailable: Option<BackupUnavailable>,
    pub phase: BackupPhase,
    pub entries: [BackupSnapshotEntry; 8],
    pub entry_count: usize,
    pub entry_total: usize,
    pub list_error: Option<BackupOpError>,
    pub selected: usize,
    pub prompt: Option<BackupPrompt>,
    pub export_outcome: Option<Result<BackupExportInfo, BackupOpError>>,
    pub restore_outcome: Option<Result<BackupRestoreReport, BackupOpError>>,
    pub delete_outcome: Option<Result<(), BackupOpError>>,
    pub latest_export: Option<BackupExportInfo>,
    /// The snapshot a restore dry run was asked for, kept while its confirm
    /// prompt is up.
    pub pending_restore_name: [u8; 32],
    pub pending_restore_len: usize,
}

/// `n` zero bytes.
pub open spec fn zeros(n: nat) -> Seq<u8> {
    Seq::new(n, |i: int| 0u8)
}

/// An empty list row.
pub open spec fn is_blank(e: BackupSnapshotEntry) -> bool {
    &&& e.index == 0 && e.path_len == 0 && e.name_len == 0 && !e.signed && e.key_id == 0
    &&& e.path@ == zeros(48) && e.name@ == zeros(32)
}

/// The page before any route is known: the no-route explainer, idle,
/// nothing listed, no outcomes and no prompt.
pub open spec fn fresh_backup(s: BackupUiState) -> bool {
    &&& s.unavailable == Some(BackupUnavailable::NoRoute)
    &&& s.phase == BackupPhase::Idle
    &&& forall|i: int| 0 <= i < 8 ==> is_blank(#[trigger] s.entries[i])
    &&& s.entry_count == 0
    &&& s.entry_total == 0
    &&& s.list_error is None
    &&& s.selected == 0
    &&& s.prompt is None
    &&& s.export_outcome is None
    &&& s.restore_outcome is None
    &&& s.delete_outcome is None
    &&& s.latest_export is None
    &&& s.pending_restore_name@ == zeros(32)
    &&& s.pending_restore_len == 0
}

/// A row's lengths fit its buffers.
pub open spec fn entry_wf(e: BackupSnapshotEntry) -> bool {
    e.path_len <= 48 && e.name_len <= 32
}

impl BackupUiState {
    /// The listing window holds at most its rows, every kept row fits its
    /// buffers, and the pending restore name fits its buffer.
    pub open spec fn wf(&self) -> bool {
        &&& self.entry_count <= 8
        &&& forall|i: int| 0 <= i < 8 ==> entry_wf(#[trigger] self.entries[i])
        &&& self.pending_restore_len <= 32
    }

    /// The page before any route is known: the no-route explainer, idle,
    /// nothing listed, no outcomes and no prompt.
    pub fn new() -> (s: Self)
        ensures
            s.wf(),
            fresh_backup(s),
    {
        let path = [0u8; 48];
        let name = [0u8; 32];
        assert(path@ =~= zeros(48));
        assert(name@ =~= zeros(32));
        let blank = BackupSnapshotEntry { index: 0, path, path_len: 0, name, name_len: 0, signed: false, key_id: 0 };
        let pending = [0u8; 32];
        assert(pending@ =~= zeros(32));
        let entries = [blank, blank, blank, blank, blank, blank, blank, blank];
        assert forall|i: int| 0 <= i < 8 implies is_blank(#[trigger] entries[i]) by {
            assert(entries[i] == blank);
        }
        BackupUiState {
            unavailable: Some(BackupUnavailable::NoRoute),
            phase: BackupPhase::Idle,
            entries,
            entry_count: 0,
            entry_total: 0,
            list_error: None,
            selected: 0,
            prompt: None,
            export_outcome: None,
            restore_outcome: None,
            delete_outcome: None,
            latest_export: None,
            pending_restore_name: pending,
            pending_restore_len: 0,
        }
    }

    /// Closes any prompt and forgets the pending restore name.
    pub fn stop_editing(&mut self)
        ensures
            *final(self) == (BackupUiState { prompt: None, pending_restore_len: 0, pending_restore_name: final(self).pending_restore_name, ..*old(self) }),
            final(self).pending_restore_name@ == zeros(32),
    {
        self.prompt = None;
        self.pending_restore_len = 0;
        self.pending_restore_name = [0u8; 32];
    }

    /// Closes any prompt and forgets the pending restore name.
    pub fn cancel_prompt(&mut self)
        ensures
            *final(self) == (BackupUiState { prompt: None, pending_restore_len: 0, pending_restore_name: final(self).pending_restore_name, ..*old(self) }),
            final(self).pending_restore_name@ == zeros(32),
    {
        self.stop_editing();
    }

    /// Selects row `row` when it is listed; otherwise nothing changes.
    pub fn select(&mut self, row: usize)
        ensures
            row < old(self).entry_count ==> *final(self) == (BackupUiState { selected: row, ..*old(self) }),
            row >= old(self).entry_count ==> *final(self) == *old(self),
    {
        if row < self.entry_count {
            self.selected = row;
        }
    }

    /// The list request for row `index`.
    pub fn encode_list_request(&self, index: usize) -> (m: RawMessage)
        ensures
            is_request(m, BACKUP_TAG_LIST_REQUEST, seq![index as u64]),
    {
        request1(BACKUP_TAG_LIST_REQUEST, index as u64)
    }

    /// The export request for the scopes in `scope_mask`; `UnknownScope`
    /// when the mask names a scope the service does not know (an empty mask
    /// is allowed).
    pub fn encode_export_request(&self, scope_mask: u32) -> (r: Result<RawMessage, BackupOpError>)
        ensures
            scope_mask & !BACKUP_SCOPE_KNOWN_MASK != 0 ==> r == Err::<RawMessage, BackupOpError>(BackupOpError::UnknownScope),
            scope_mask & !BACKUP_SCOPE_KNOWN_MASK == 0 ==> (r matches Ok(m) && is_request(m, BACKUP_TAG_EXPORT_REQUEST, seq![scope_mask as u64])),
    {
        if scope_mask & !BACKUP_SCOPE_KNOWN_MASK != 0 {
            return Err(BackupOpError::UnknownScope);
        }
        Ok(request1(BACKUP_TAG_EXPORT_REQUEST, scope_mask as u64))
    }

    /// The restore request for snapshot `name` over the scopes in
    /// `filter_mask`, as a dry run or for real: the mask, the dry-run flag,
    /// the name's length, then the name. `UnknownScope` for an unknown
    /// scope; `Invalid` for an empty name or one over 32 bytes.
    pub fn encode_restore_request_inner(&self, filter_mask: u32, dry_run: bool, name: &[u8]) -> (r: Result<RawMessage, BackupOpError>)
        ensures
            restore_request_outcome(filter_mask, dry_run, name@) matches Err(e) ==> r == Err::<RawMessage, BackupOpError>(e),
            restore_request_outcome(filter_mask, dry_run, name@) is Ok ==> (r matches Ok(m)
                && is_request(m, BACKUP_TAG_RESTORE_REQUEST, restore_words(filter_mask, dry_run, name@))),
    {
        if filter_mask & !BACKUP_SCOPE_KNOWN_MASK != 0 {
            return Err(BackupOpError::UnknownScope);
        }
        if name.len() == 0 || name.len() > 32 {
            return Err(BackupOpError::Invalid);
        }
        let head: [u64; 3] = [filter_mask as u64, if dry_run { 1 } else { 0 }, name.len() as u64];
        assert(head@ =~= seq![filter_mask as u64, if dry_run { 1u64 } else { 0u64 }, name@.len() as u64]);
        Ok(request_with_bytes(BACKUP_TAG_RESTORE_REQUEST, head.as_slice(), name))
    }

    /// The delete request for snapshot `name`: its length, then the name;
    /// `Invalid` for an empty name or one over 32 bytes.
    pub fn encode_delete_request(&self, name: &[u8]) -> (r: Result<RawMessage, BackupOpError>)
        ensures
            (name@.len() == 0 || name@.len() > 32) ==> r == Err::<RawMessage, BackupOpError>(BackupOpError::Invalid),
            !(name@.len() == 0 || name@.len() > 32) ==> (r matches Ok(m)
                && is_request(m, BACKUP_TAG_DELETE_REQUEST, seq![name@.len() as u64] + packed_words(name@))),
    {
        if name.len() == 0 || name.len() > 32 {
            return Err(BackupOpError::Invalid);
        }
        let head: [u64; 1] = [name.len() as u64];
        assert(head@ =~= seq![name@.len() as u64]);
        Ok(request_with_bytes(BACKUP_TAG_DELETE_REQUEST, head.as_slice(), name))
    }

    /// Starts a listing: the phase becomes `Listing`; the window, the
    /// counts, the selection, the error and every outcome are cleared, and
    /// any prompt is closed.
    pub fn begin_listing(&mut self)
        ensures
            *final(self) == (BackupUiState {
                phase: BackupPhase::Listing,
                entry_count: 0,
                entry_total: 0,
                list_error: None,
                selected: 0,
                export_outcome: None,
                restore_outcome: None,
                delete_outcome: None,
                prompt: None,
                pending_restore_len: 0,
                pending_restore_name: final(self).pending_restore_name,
                ..*old(self)
            }),
            final(self).pending_restore_name@ == zeros(32),
    {
        self.phase = BackupPhase::Listing;
        self.entry_count = 0;
        self.entry_total = 0;
        self.list_error = None;
        self.selected = 0;
        self.export_outcome = None;
        self.restore_outcome = None;
        self.delete_outcome = None;
        self.stop_editing();
    }

    /// Marks the route as broken by a failed round trip.
    pub fn note_transport(&mut self)
        ensures
            *final(self) == (BackupUiState { unavailable: Some(BackupUnavailable::TransportFailure), ..*old(self) }),
    {
        self.unavailable = Some(BackupUnavailable::TransportFailure);
    }
}

/// What a restore request for `name` over `filter_mask` comes to before it
/// is built.
pub open spec fn restore_request_outcome(filter_mask: u32, dry_run: bool, name: Seq<u8>) -> Result<(), BackupOpError> {
    if filter_mask & !BACKUP_SCOPE_KNOWN_MASK != 0 {
        Err(BackupOpError::UnknownScope)
    } else if name.len() == 0 || name.len() > 32 {
        Err(BackupOpError::Invalid)
    } else {
        Ok(())
    }
}

/// The words of a restore request.
pub open spec fn restore_words(filter_mask: u32, dry_run: bool, name: Seq<u8>) -> Seq<u64> {
    seq![filter_mask as u64, if dry_run { 1u64 } else { 0u64 }, name.len() as u64] + packed_words(name)
}

/// The page shows live controls only while its route is trusted.
pub fn page_live(backup: &BackupUiState) -> (b: bool)
    ensures
        b == (backup.unavailable is None),
{
    backup.unavailable.is_none()
}

/// Settles a failed round trip: the route is marked broken and the phase
/// returns to `Ready`; the error to record is `Transport`.
pub fn note_transport_outcome(backup: &mut BackupUiState) -> (e: BackupOpError)
    ensures
        e == BackupOpError::Transport,
        *final(backup) == (BackupUiState { unavailable: Some(BackupUnavailable::TransportFailure), phase: BackupPhase::Ready, ..*old(backup) }),
{
    backup.note_transport();
    backup.phase = BackupPhase::Ready;
    BackupOpError::Transport
}

/// The plain name of the selected row.
pub open spec fn selected_name_of(s: BackupUiState) -> Seq<u8> {
    s.entries[s.selected as int].name@.subrange(0, s.entries[s.selected as int].name_len as int)
}

/// The pending restore name.
pub open spec fn pending_name_of(s: BackupUiState) -> Seq<u8> {
    s.pending_restore_name@.subrange(0, s.pending_restore_len as int)
}

impl BackupUiState {
    /// The name length of the selected row; `NotFound` when no row is
    /// selected.
    pub fn selected_name_len(&self) -> (r: Result<usize, BackupOpError>)
        requires
            self.wf(),
        ensures
            self.selected >= self.entry_count ==> r == Err::<usize, BackupOpError>(BackupOpError::NotFound),
            self.selected < self.entry_count ==> r == Ok::<usize, BackupOpError>(self.entries[self.selected as int].name_len),
    {
        if self.selected >= self.entry_count {
            return Err(BackupOpError::NotFound);
        }
        Ok(self.entries[self.selected].name_len)
    }

    /// Opens the delete prompt for the selected row; `NotFound` (nothing
    /// changes) when no row is selected.
    pub fn begin_delete(&mut self) -> (r: Result<(), BackupOpError>)
        requires
            old(self).wf(),
        ensures
            final(self).wf(),
            old(self).selected >= old(self).entry_count ==> r == Err::<(), BackupOpError>(BackupOpError::NotFound) && *final(self) == *old(self),
            old(self).selected < old(self).entry_count ==> r == Ok::<(), BackupOpError>(())
                && *final(self) == (BackupUiState { prompt: Some(BackupPrompt::DeleteConfirm), ..*old(self) }),
    {
        match self.selected_name_len() {
            Ok(_) => {},
            Err(e) => return Err(e),
        }
        self.prompt = Some(BackupPrompt::DeleteConfirm);
        Ok(())
    }

    /// Starts the dry run of restoring the selected snapshot over the
    /// scopes in `filter_mask`: the request to send. The selected name is
    /// kept as the pending restore name (zero-padded), the last restore
    /// outcome is cleared and the phase becomes `Restoring`. `NotFound`
    /// without a selection, and the request's own errors, change nothing.
    pub fn begin_restore_dry_run(&mut self, filter_mask: u32) -> (r: Result<RawMessage, BackupOpError>)
        requires
            old(self).wf(),
        ensures
            final(self).wf(),
            dry_run_begun(*old(self), filter_mask, *final(self), r),
    {
        let len = match self.selected_name_len() {
            Ok(n) => n,
            Err(e) => return Err(e),
        };
        let sel = self.selected;
        proof {
            assert(entry_wf(self.entries[sel as int]));
        }
        let name = vstd::slice::slice_subrange(self.entries[sel].name.as_slice(), 0, len);
        let request = match self.encode_restore_request_inner(filter_mask, true, name) {
            Ok(m) => m,
            Err(e) => return Err(e),
        };
        let mut stored = [0u8; 32];
        let mut i: usize = 0;
        while i < len
            invariant
                len <= 32,
                i <= len,
                name@.len() == len,
                forall|k: int| 0 <= k < i ==> stored@[k] == name@[k],
                forall|k: int| i <= k < 32 ==> stored@[k] == 0u8,
            decreases len - i,
        {
            stored[i] = name[i];
            i = i + 1;
        }
        proof {
            assert(stored@ =~= name@ + zeros((32 - len) as nat));
        }
        self.pending_restore_name = stored;
        self.pending_restore_len = len;
        self.restore_outcome = None;
        self.phase = BackupPhase::Restoring;
        Ok(request)
    }

    /// Applies the restore whose dry-run report the confirm prompt shows,
    /// for the pending snapshot over `filter_mask`: the request to send. The
    /// prompt closes, the last outcome is cleared and the phase becomes
    /// `Restoring`. `Invalid` without that prompt, and the request's own
    /// errors, change nothing.
    pub fn confirm_restore_apply(&mut self, filter_mask: u32) -> (r: Result<RawMessage, BackupOpError>)
        requires
            old(self).wf(),
        ensures
            final(self).wf(),
            apply_begun(*old(self), filter_mask, *final(self), r),
    {
        match self.prompt {
            Some(BackupPrompt::RestoreConfirm(_)) => {},
            _ => return Err(BackupOpError::Invalid),
        }
        let len = self.pending_restore_len;
        let name = vstd::slice::slice_subrange(self.pending_restore_name.as_slice(), 0, len);
        let request = match self.encode_restore_request_inner(filter_mask, false, name) {
            Ok(m) => m,
            Err(e) => return Err(e),
        };
        self.prompt = None;
        self.restore_outcome = None;
        self.phase = BackupPhase::Restoring;
        Ok(request)
    }

    /// Deletes the selected snapshot once its confirm prompt is up: the
    /// request to send. The prompt closes, the last delete outcome is
    /// cleared and the phase becomes `Deleting`. `Invalid` without that
    /// prompt, `NotFound` without a selection, and the request's own errors
    /// change nothing.
    pub fn confirm_delete(&mut self) -> (r: Result<RawMessage, BackupOpError>)
        requires
            old(self).wf(),
        ensures
            final(self).wf(),
            delete_begun(*old(self), *final(self), r),
    {
        match self.prompt {
            Some(BackupPrompt::DeleteConfirm) => {},
            _ => return Err(BackupOpError::Invalid),
        }
        let len = match self.selected_name_len() {
            Ok(n) => n,
            Err(e) => return Err(e),
        };
        let sel = self.selected;
        proof {
            assert(entry_wf(self.entries[sel as int]));
        }
        let name = vstd::slice::slice_subrange(self.entries[sel].name.as_slice(), 0, len);
        let request = match self.encode_delete_request(name) {
            Ok(m) => m,
            Err(e) => return Err(e),
        };
        self.prompt = None;
        self.delete_outcome = None;
        self.phase = BackupPhase::Deleting;
        Ok(request)
    }

    /// Starts an export of the scopes in `scope_mask`: the request to send;
    /// the last export outcome is cleared and the phase becomes
    /// `Exporting`. An unknown scope changes nothing.
    pub fn begin_export(&mut self, scope_mask: u32) -> (r: Result<RawMessage, BackupOpError>)
        ensures
            export_begun(*old(self), scope_mask, *final(self), r),
    {
        let request = match self.encode_export_request(scope_mask) {
            Ok(m) => m,
            Err(e) => return Err(e),
        };
        self.export_outcome = None;
        self.phase = BackupPhase::Exporting;
        Ok(request)
    }
}

/// What an export reply comes to, before its name is read: `Malformed`
/// for the wrong tag, fewer than four words, a name length of zero or over
/// 32, or too few words for the name; the service's error for a failure
/// status.
pub open spec fn export_check(r: RawMessage) -> Result<(), BackupOpError> {
    let len = (r.words[1] as usize) as nat;
    if r.tag != BACKUP_TAG_EXPORT_REPLY || r.word_count < 4 {
        Err(BackupOpError::Malformed)
    } else if r.words[0] != 0 {
        Err(failure_of(r.words[0]))
    } else if len == 0 || len > 32 {
        Err(BackupOpError::Malformed)
    } else if unpack_outcome(r, 4, len, 32) is Err {
        Err(BackupOpError::Malformed)
    } else {
        Ok(())
    }
}

/// The export a well-formed export reply reports: the name carried from
/// word 4 (then zeros), the record count, the blob size and the signing
/// tail.
pub open spec fn export_matches(info: BackupExportInfo, r: RawMessage) -> bool {
    let len = (r.words[1] as usize) as nat;
    &&& info.name_len == len
    &&& info.name@ == message_bytes(r, 4, len) + zeros((32 - len) as nat)
    &&& info.record_count == r.words[2] as u32
    &&& info.blob_size == r.words[3] as usize
    &&& (info.signed, info.key_id) == signing_tail_of(r, 4, len)
}

/// Decodes an export reply.
pub fn decode_export_reply(reply: &RawMessage) -> (d: Result<BackupExportInfo, BackupOpError>)
    requires
        reply.wf(),
    ensures
        export_check(*reply) matches Err(e) ==> d == Err::<BackupExportInfo, BackupOpError>(e),
        export_check(*reply) is Ok ==> (d matches Ok(info) && export_matches(info, *reply)),
{
    if reply.tag != BACKUP_TAG_EXPORT_REPLY || reply.word_count < 4 {
        return Err(BackupOpError::Malformed);
    }
    let status = reply.words[0];
    if status != 0 {
        return Err(failure_from_code(status));
    }
    let len = reply.words[1] as usize;
    if len == 0 || len > 32 {
        return Err(BackupOpError::Malformed);
    }
    let mut name = [0u8; 32];
    let ghost zero = name@;
    match unpack_from(reply, 4, len, &mut name) {
        Ok(()) => {},
        Err(_) => return Err(BackupOpError::Malformed),
    }
    proof {
        assert(zero =~= zeros(32));
        assert(name@ =~= name@.subrange(0, len as int) + name@.subrange(len as int, 32));
        assert(name@.subrange(len as int, 32) =~= zeros((32 - len) as nat));
    }
    let (signed, key_id) = signing_tail(reply, 4, len);
    Ok(BackupExportInfo { name, name_len: len, record_count: reply.words[2] as u32, blob_size: reply.words[3] as usize, signed, key_id })
}

/// The restore report a well-formed restore reply carries.
pub open spec fn report_of(r: RawMessage) -> BackupRestoreReport {
    BackupRestoreReport {
        dry_run: r.words[1] != 0,
        selected_scope_mask: r.words[2] as u32,
        selected_records: r.words[3] as u32,
        total_bytes: r.words[4],
        verified: signing_tail_of(r, 5, 0).0,
        key_id: signing_tail_of(r, 5, 0).1,
    }
}

/// Index of the first byte after the first `/` of `p` at or after `i`, or
/// zero when there is none.
pub open spec fn name_start_from(p: Seq<u8>, i: int) -> int
    decreases p.len() - i,
{
    if i >= p.len() {
        0
    } else if p[i] == 47 {
        i + 1
    } else {
        name_start_from(p, i + 1)
    }
}

/// The list reply has the list tag and at least its status word.
pub open spec fn list_shape_ok(r: RawMessage) -> bool {
    r.tag == BACKUP_TAG_LIST_REPLY && r.word_count >= 1
}

/// An entry reply is well formed: at least four words, a path length of
/// one to 48 bytes carried by the words that follow, and a name (the path
/// after its first `/`) of one to 32 bytes.
pub open spec fn entry_ok(r: RawMessage) -> bool {
    let len = (r.words[3] as usize) as nat;
    let path = message_bytes(r, 4, len);
    let start = name_start_from(path, 0);
    &&& r.word_count >= 4
    &&& 0 < len <= 48
    &&& unpack_outcome(r, 4, len, 48) is Ok
    &&& 0 < len - start <= 32
}

/// The entry a well-formed list reply carries: the echoed index, the path
/// from word 4 (then zeros), the name after the path's first `/` (then
/// zeros), and the signing tail.
pub open spec fn entry_matches(e: BackupSnapshotEntry, r: RawMessage) -> bool {
    let len = (r.words[3] as usize) as nat;
    let path = message_bytes(r, 4, len);
    let start = name_start_from(path, 0);
    &&& e.index == r.words[1] as usize
    &&& e.path_len == len
    &&& e.path@ == path + zeros((48 - len) as nat)
    &&& e.name_len == len - start
    &&& e.name@ == path.subrange(start, len as int) + zeros((32 - (len - start)) as nat)
    &&& (e.signed, e.key_id) == signing_tail_of(r, 4, len)
}

/// `s1` is `s0` with its selected row removed from the listing window:
/// later rows move up one place, the counts drop by one, and a selection
/// past the new end moves to the last row; without a selection nothing
/// changes.
pub open spec fn removes_selected(s0: BackupUiState, s1: BackupUiState) -> bool {
    if s0.selected >= s0.entry_count {
        s1 == s0
    } else {
        let sel = s0.selected as int;
        let n = s0.entry_count as int;
        &&& forall|i: int| 0 <= i < 8 ==> #[trigger] s1.entries[i] == (if sel <= i < n - 1 { s0.entries[i + 1] } else { s0.entries[i] })
        &&& s1.entry_count == n - 1
        &&& s1.entry_total == (if s0.entry_total == 0 { 0 } else { s0.entry_total - 1 })
        &&& s1.selected == (if sel >= n - 1 && n - 1 > 0 { n - 2 } else { sel })
        &&& s1 == (BackupUiState { entries: s1.entries, entry_count: s1.entry_count, entry_total: s1.entry_total, selected: s1.selected, ..s0 })
    }
}

impl BackupUiState {
    /// Removes the selected row from the listing window: later rows move up
    /// one place, the counts drop by one, and a selection past the new end
    /// moves to the last row. Without a selection nothing changes.
    pub fn remove_selected(&mut self)
        requires
            old(self).wf(),
        ensures
            final(self).wf(),
            removes_selected(*old(self), *final(self)),
    {
        if self.selected >= self.entry_count {
            return;
        }
        let n = self.entry_count;
        let sel = self.selected;
        let ghost before = self.entries;
        let mut entries = self.entries;
        let mut i = sel;
        while i < n - 1
            invariant
                n <= 8,
                sel < n,
                sel <= i <= n - 1,
                forall|k: int| 0 <= k < 8 ==> #[trigger] entries[k] == (if sel <= k < i { before[k + 1] } else { before[k] }),
            decreases n - 1 - i,
        {
            entries[i] = entries[i + 1];
            i = i + 1;
        }
        self.entries = entries;
        self.entry_count = n - 1;
        self.entry_total = if self.entry_total == 0 { 0 } else { self.entry_total - 1 };
        if self.selected >= self.entry_count && self.entry_count > 0 {
            self.selected = self.entry_count - 1;
        }
    }

    /// Takes an export reply: the phase returns to `Ready`; the decoded
    /// export (or error) becomes the export outcome, and a successful
    /// export the latest one.
    pub fn on_export_reply(&mut self, reply: &RawMessage) -> (d: Result<BackupExportInfo, BackupOpError>)
        requires
            reply.wf(),
        ensures
            export_step(*old(self), *reply, *final(self), d),
    {
        self.phase = BackupPhase::Ready;
        match decode_export_reply(reply) {
            Ok(info) => {
                self.export_outcome = Some(Ok(info));
                self.latest_export = Some(info);
                Ok(info)
            },
            Err(e) => {
                self.export_outcome = Some(Err(e));
                Err(e)
            },
        }
    }

    /// Takes a restore reply. A reply of the wrong tag or under five words
    /// is `Malformed` and marks the route broken; a failure status closes
    /// the prompt; a dry-run report opens the confirm prompt and an applied
    /// report closes it. Either way the phase returns to `Ready` and the
    /// outcome is recorded.
    pub fn on_restore_reply(&mut self, reply: &RawMessage) -> (d: Result<BackupRestoreReport, BackupOpError>)
        requires
            reply.wf(),
        ensures
            restore_step(*old(self), *reply, *final(self), d),
    {
        if reply.tag != BACKUP_TAG_RESTORE_REPLY || reply.word_count < 5 {
            self.phase = BackupPhase::Ready;
            self.note_transport();
            self.restore_outcome = Some(Err(BackupOpError::Malformed));
            return Err(BackupOpError::Malformed);
        }
        let status = reply.words[0];
        if status != 0 {
            let e = failure_from_code(status);
            self.phase = BackupPhase::Ready;
            self.prompt = None;
            self.restore_outcome = Some(Err(e));
            return Err(e);
        }
        let (verified, key_id) = signing_tail(reply, 5, 0);
        let report = BackupRestoreReport {
            dry_run: reply.words[1] != 0,
            selected_scope_mask: reply.words[2] as u32,
            selected_records: reply.words[3] as u32,
            total_bytes: reply.words[4],
            verified,
            key_id,
        };
        if report.dry_run {
            self.prompt = Some(BackupPrompt::RestoreConfirm(report));
        } else {
            self.prompt = None;
        }
        self.phase = BackupPhase::Ready;
        self.restore_outcome = Some(Ok(report));
        Ok(report)
    }

    /// Takes a delete reply: the phase returns to `Ready`. A reply of the
    /// wrong tag or without words is `Malformed` and marks the route
    /// broken; success removes the selected row; a failure status is
    /// reported. The outcome is recorded.
    pub fn on_delete_reply(&mut self, reply: &RawMessage) -> (d: Result<(), BackupOpError>)
        requires
            old(self).wf(),
        ensures
            final(self).wf(),
            delete_step(*old(self), *reply, *final(self), d),
    {
        self.phase = BackupPhase::Ready;
        if reply.tag != BACKUP_TAG_DELETE_REPLY || reply.word_count < 1 {
            self.note_transport();
            self.delete_outcome = Some(Err(BackupOpError::Malformed));
            return Err(BackupOpError::Malformed);
        }
        let status = reply.words[0];
        if status == 0 {
            self.remove_selected();
            self.delete_outcome = Some(Ok(()));
            Ok(())
        } else {
            let e = failure_from_code(status);
            self.delete_outcome = Some(Err(e));
            Err(e)
        }
    }
}

fn name_start(path: &[u8; 48], len: usize) -> (start: usize)
    requires
        len <= 48,
    ensures
        start == name_start_from(path@.subrange(0, len as int), 0),
        start <= len,
{
    let ghost p = path@.subrange(0, len as int);
    let mut i: usize = 0;
    while i < len
        invariant
            len <= 48,
            i <= len,
            p == path@.subrange(0, len as int),
            name_start_from(p, 0) == name_start_from(p, i as int),
            forall|k: int| 0 <= k < i ==> p[k] != 47,
        decreases len - i,
    {
        if path[i] == 47 {
            return i + 1;
        }
        i = i + 1;
    }
    0
}

impl BackupUiState {
    /// Takes one list reply. An entry is appended to the window while it
    /// has room (it is counted either way) and returned; the end of the
    /// listing makes the phase `Ready` and returns `None`. A failure status
    /// records the list error and makes the phase `Idle` (the route stays
    /// trusted: the service answered). A malformed reply marks the route
    /// broken. See `list_shape_ok`, `entry_ok` and `entry_matches`.
    pub fn decode_list_reply(&mut self, reply: &RawMessage) -> (d: Result<Option<BackupSnapshotEntry>, BackupOpError>)
        requires
            old(self).wf(),
            reply.wf(),
            old(self).entry_total < usize::MAX,
        ensures
            final(self).wf(),
            list_step(*old(self), *reply, *final(self), d),
    {
        if reply.tag != BACKUP_TAG_LIST_REPLY || reply.word_count < 1 {
            self.note_transport();
            return Err(BackupOpError::Malformed);
        }
        let status = reply.words[0];
        if status != 0 && status != BACKUP_LIST_END_STATUS {
            let e = failure_from_code(status);
            self.list_error = Some(e);
            self.phase = BackupPhase::Idle;
            return Err(e);
        }
        if status == BACKUP_LIST_END_STATUS {
            self.phase = BackupPhase::Ready;
            return Ok(None);
        }
        if reply.word_count < 4 {
            self.note_transport();
            return Err(BackupOpError::Malformed);
        }
        let index = reply.words[1] as usize;
        let len = reply.words[3] as usize;
        if len == 0 || len > 48 {
            self.note_transport();
            return Err(BackupOpError::Malformed);
        }
        let mut path = [0u8; 48];
        let ghost zero = path@;
        match unpack_from(reply, 4, len, &mut path) {
            Ok(()) => {},
            Err(_) => {
                self.note_transport();
                return Err(BackupOpError::Malformed);
            },
        }
        let ghost pbytes = message_bytes(*reply, 4, len as nat);
        proof {
            assert(zero =~= zeros(48));
            assert(path@ =~= path@.subrange(0, len as int) + path@.subrange(len as int, 48));
            assert(path@.subrange(len as int, 48) =~= zeros((48 - len) as nat));
            assert(path@.subrange(0, len as int) == pbytes);
        }
        let start = name_start(&path, len);
        if len - start == 0 || len - start > 32 {
            self.note_transport();
            return Err(BackupOpError::Malformed);
        }
        let name_len = len - start;
        let mut name = [0u8; 32];
        let mut k: usize = 0;
        while k < name_len
            invariant
                name_len <= 32,
                start + name_len == len,
                len <= 48,
                k <= name_len,
                forall|t: int| 0 <= t < k ==> name@[t] == path@[start + t],
                forall|t: int| k <= t < 32 ==> name@[t] == 0u8,
            decreases name_len - k,
        {
            name[k] = path[start + k];
            k = k + 1;
        }
        proof {
            assert(name@ =~= pbytes.subrange(start as int, len as int) + zeros((32 - name_len) as nat)) by {
                assert forall|t: int| 0 <= t < name_len implies name@[t] == pbytes.subrange(start as int, len as int)[t] by {
                    assert(path@[start + t] == path@.subrange(0, len as int)[start + t]);
                }
            }
        }
        let (signed, key_id) = signing_tail(reply, 4, len);
        let entry = BackupSnapshotEntry { index, path, path_len: len, name, name_len, signed, key_id };
        if self.entry_count < 8 {
            let n = self.entry_count;
            let mut entries = self.entries;
            entries[n] = entry;
            self.entries = entries;
            self.entry_count = n + 1;
        }
        self.entry_total = self.entry_total + 1;
        Ok(Some(entry))
    }
}

/// Starting a restore dry run of the selected snapshot over `filter_mask` takes `s0` to `s1` with result `out`.
pub open spec fn dry_run_begun(s0: BackupUiState, filter_mask: u32, s1: BackupUiState, out: Result<RawMessage, BackupOpError>) -> bool {
    &&& (s0.selected >= s0.entry_count ==> out == Err::<RawMessage, BackupOpError>(BackupOpError::NotFound) && s1 == s0)
    &&& (s0.selected < s0.entry_count ==> {
        let name = selected_name_of(s0);
        &&& restore_request_outcome(filter_mask, true, name) matches Err(e) ==> out == Err::<RawMessage, BackupOpError>(e) && s1 == s0
        &&& restore_request_outcome(filter_mask, true, name) is Ok ==> {
            &&& out matches Ok(m) && is_request(m, BACKUP_TAG_RESTORE_REQUEST, restore_words(filter_mask, true, name))
            &&& s1 == (BackupUiState {
                pending_restore_name: s1.pending_restore_name,
                pending_restore_len: name.len() as usize,
                restore_outcome: None,
                phase: BackupPhase::Restoring,
                ..s0
            })
            &&& s1.pending_restore_name@ == name + zeros((32 - name.len()) as nat)
        }
    })
}

/// Confirming the restore apply over `filter_mask` takes `s0` to `s1` with result `out`.
pub open spec fn apply_begun(s0: BackupUiState, filter_mask: u32, s1: BackupUiState, out: Result<RawMessage, BackupOpError>) -> bool {
    &&& (!(s0.prompt matches Some(BackupPrompt::RestoreConfirm(_))) ==> out == Err::<RawMessage, BackupOpError>(BackupOpError::Invalid) && s1 == s0)
    &&& (s0.prompt matches Some(BackupPrompt::RestoreConfirm(_)) ==> {
        let name = pending_name_of(s0);
        &&& restore_request_outcome(filter_mask, false, name) matches Err(e) ==> out == Err::<RawMessage, BackupOpError>(e) && s1 == s0
        &&& restore_request_outcome(filter_mask, false, name) is Ok ==> {
            &&& out matches Ok(m) && is_request(m, BACKUP_TAG_RESTORE_REQUEST, restore_words(filter_mask, false, name))
            &&& s1 == (BackupUiState { prompt: None, restore_outcome: None, phase: BackupPhase::Restoring, ..s0 })
        }
    })
}

/// Confirming the delete of the selected snapshot takes `s0` to `s1` with result `out`.
pub open spec fn delete_begun(s0: BackupUiState, s1: BackupUiState, out: Result<RawMessage, BackupOpError>) -> bool {
    &&& (s0.prompt != Some(BackupPrompt::DeleteConfirm) ==> out == Err::<RawMessage, BackupOpError>(BackupOpError::Invalid) && s1 == s0)
    &&& (s0.prompt == Some(BackupPrompt::DeleteConfirm) && s0.selected >= s0.entry_count
        ==> out == Err::<RawMessage, BackupOpError>(BackupOpError::NotFound) && s1 == s0)
    &&& (s0.prompt == Some(BackupPrompt::DeleteConfirm) && s0.selected < s0.entry_count ==> {
        let name = selected_name_of(s0);
        &&& name.len() == 0 ==> out == Err::<RawMessage, BackupOpError>(BackupOpError::Invalid) && s1 == s0
        &&& name.len() > 0 ==> {
            &&& out matches Ok(m) && is_request(m, BACKUP_TAG_DELETE_REQUEST, seq![name.len() as u64] + packed_words(name))
            &&& s1 == (BackupUiState { prompt: None, delete_outcome: None, phase: BackupPhase::Deleting, ..s0 })
        }
    })
}

/// Starting an export of `scope_mask` takes `s0` to `s1` with result `out`.
pub open spec fn export_begun(s0: BackupUiState, scope_mask: u32, s1: BackupUiState, out: Result<RawMessage, BackupOpError>) -> bool {
    &&& (scope_mask & !BACKUP_SCOPE_KNOWN_MASK != 0 ==> out == Err::<RawMessage, BackupOpError>(BackupOpError::UnknownScope) && s1 == s0)
    &&& (scope_mask & !BACKUP_SCOPE_KNOWN_MASK == 0 ==> (out matches Ok(m) && is_request(m, BACKUP_TAG_EXPORT_REQUEST, seq![scope_mask as u64]))
        && s1 == (BackupUiState { export_outcome: None, phase: BackupPhase::Exporting, ..s0 }))
}

/// Taking export reply `reply` takes `s0` to `s1` with result `out`.
pub open spec fn export_step(s0: BackupUiState, reply: RawMessage, s1: BackupUiState, out: Result<BackupExportInfo, BackupOpError>) -> bool {
    &&& (export_check(reply) matches Err(e) ==> out == Err::<BackupExportInfo, BackupOpError>(e)
        && s1 == (BackupUiState { phase: BackupPhase::Ready, export_outcome: Some(Err(e)), ..s0 }))
    &&& (export_check(reply) is Ok ==> (out matches Ok(info) && export_matches(info, reply)
        && s1 == (BackupUiState { phase: BackupPhase::Ready, export_outcome: Some(Ok(info)), latest_export: Some(info), ..s0 })))
}

/// Taking restore reply `reply` takes `s0` to `s1` with result `out`.
pub open spec fn restore_step(s0: BackupUiState, reply: RawMessage, s1: BackupUiState, out: Result<BackupRestoreReport, BackupOpError>) -> bool {
    &&& ((reply.tag != BACKUP_TAG_RESTORE_REPLY || reply.word_count < 5) ==> out == Err::<BackupRestoreReport, BackupOpError>(BackupOpError::Malformed)
        && s1 == (BackupUiState { phase: BackupPhase::Ready, unavailable: Some(BackupUnavailable::TransportFailure),
            restore_outcome: Some(Err(BackupOpError::Malformed)), ..s0 }))
    &&& (!(reply.tag != BACKUP_TAG_RESTORE_REPLY || reply.word_count < 5) && reply.words[0] != 0 ==> out == Err::<BackupRestoreReport, BackupOpError>(failure_of(reply.words[0]))
        && s1 == (BackupUiState { phase: BackupPhase::Ready, prompt: None, restore_outcome: Some(Err(failure_of(reply.words[0]))), ..s0 }))
    &&& (!(reply.tag != BACKUP_TAG_RESTORE_REPLY || reply.word_count < 5) && reply.words[0] == 0 ==> out == Ok::<BackupRestoreReport, BackupOpError>(report_of(reply))
        && s1 == (BackupUiState {
            phase: BackupPhase::Ready,
            prompt: if report_of(reply).dry_run { Some(BackupPrompt::RestoreConfirm(report_of(reply))) } else { None },
            restore_outcome: Some(Ok(report_of(reply))),
            ..s0
        }))
}

/// Taking delete reply `reply` takes `s0` to `s1` with result `out`.
pub open spec fn delete_step(s0: BackupUiState, reply: RawMessage, s1: BackupUiState, out: Result<(), BackupOpError>) -> bool {
    &&& ((reply.tag != BACKUP_TAG_DELETE_REPLY || reply.word_count < 1) ==> out == Err::<(), BackupOpError>(BackupOpError::Malformed)
        && s1 == (BackupUiState { phase: BackupPhase::Ready, unavailable: Some(BackupUnavailable::TransportFailure),
            delete_outcome: Some(Err(BackupOpError::Malformed)), ..s0 }))
    &&& (!(reply.tag != BACKUP_TAG_DELETE_REPLY || reply.word_count < 1) && reply.words[0] != 0 ==> out == Err::<(), BackupOpError>(failure_of(reply.words[0]))
        && s1 == (BackupUiState { phase: BackupPhase::Ready, delete_outcome: Some(Err(failure_of(reply.words[0]))), ..s0 }))
    &&& (!(reply.tag != BACKUP_TAG_DELETE_REPLY || reply.word_count < 1) && reply.words[0] == 0 ==> out == Ok::<(), BackupOpError>(())
        && removes_selected(BackupUiState { phase: BackupPhase::Ready, delete_outcome: Some(Ok(())), ..s0 }, s1))
}

/// Taking list reply `reply` takes `s0` to `s1` with result `out`.
pub open spec fn list_step(s0: BackupUiState, reply: RawMessage, s1: BackupUiState, out: Result<Option<BackupSnapshotEntry>, BackupOpError>) -> bool {
    &&& (!list_shape_ok(reply) ==> out == Err::<Option<BackupSnapshotEntry>, BackupOpError>(BackupOpError::Malformed)
        && s1 == (BackupUiState { unavailable: Some(BackupUnavailable::TransportFailure), ..s0 }))
    &&& (list_shape_ok(reply) && reply.words[0] != 0 && reply.words[0] != BACKUP_LIST_END_STATUS
        ==> out == Err::<Option<BackupSnapshotEntry>, BackupOpError>(failure_of(reply.words[0]))
        && s1 == (BackupUiState { list_error: Some(failure_of(reply.words[0])), phase: BackupPhase::Idle, ..s0 }))
    &&& (list_shape_ok(reply) && reply.words[0] == BACKUP_LIST_END_STATUS ==> out == Ok::<Option<BackupSnapshotEntry>, BackupOpError>(None)
        && s1 == (BackupUiState { phase: BackupPhase::Ready, ..s0 }))
    &&& (list_shape_ok(reply) && reply.words[0] == 0 && !entry_ok(reply) ==> out == Err::<Option<BackupSnapshotEntry>, BackupOpError>(BackupOpError::Malformed)
        && s1 == (BackupUiState { unavailable: Some(BackupUnavailable::TransportFailure), ..s0 }))
    &&& (list_shape_ok(reply) && reply.words[0] == 0 && entry_ok(reply) ==> (out matches Ok(Some(e)) && entry_matches(e, reply) && {
        let n = s0.entry_count;
        &&& n < 8 ==> s1.entries@ == s0.entries@.update(n as int, e) && s1.entry_count == n + 1
        &&& n >= 8 ==> s1.entries == s0.entries && s1.entry_count == n
        &&& s1 == (BackupUiState {
            entries: s1.entries,
            entry_count: s1.entry_count,
            entry_total: (s0.entry_total + 1) as usize,
            ..s0
        })
    }))
}

/// `s` with a listing that is still marked `Listing` settled as `Ready`.
pub open spec fn settled(s: BackupUiState) -> BackupUiState {
    if s.phase == BackupPhase::Listing { BackupUiState { phase: BackupPhase::Ready, ..s } } else { s }
}

/// The reply of one round trip is well formed when it came back.
pub open spec fn round_trip_wf(reply: Option<crate::error::Result<RawMessage>>) -> bool {
    reply matches Some(Ok(r)) ==> r.wf()
}

/// Entering the page closes any prompt. Without a granted route
/// (`INVALID_HANDLE`) the page shows the no-route explainer, unless a
/// broken route is already being explained; with one the explainer goes
/// away and the caller refreshes the listing (`true`).
pub fn on_page_enter(handle: Handle, backup: &mut BackupUiState) -> (refresh: bool)
    ensures
        refresh == (handle != INVALID_HANDLE),
        final(backup).pending_restore_name@ == zeros(32),
        *final(backup) == (BackupUiState {
            prompt: None,
            pending_restore_len: 0,
            pending_restore_name: final(backup).pending_restore_name,
            unavailable: if handle != INVALID_HANDLE { None } else if old(backup).unavailable is None { Some(BackupUnavailable::NoRoute) } else { old(backup).unavailable },
            ..*old(backup)
        }),
{
    backup.stop_editing();
    if handle == INVALID_HANDLE {
        if backup.unavailable.is_none() {
            backup.unavailable = Some(BackupUnavailable::NoRoute);
        }
        return false;
    }
    backup.unavailable = None;
    true
}

/// Step of refreshing the listing, one row per round trip. Called without
/// a reply it starts the listing and asks for row zero. With the reply to
/// row `index` it takes the row; it asks for the next row after an entry
/// while fewer than `LIST_CALL_CAP` round trips were made, and otherwise
/// stops (`None`), settling a listing still in progress as `Ready`. A
/// failed round trip marks the route broken and stops.
pub fn refresh_listing(backup: &mut BackupUiState, index: &mut usize, reply: Option<crate::error::Result<RawMessage>>) -> (next: Option<RawMessage>)
    requires
        old(backup).wf(),
        round_trip_wf(reply),
        reply is Some ==> old(backup).entry_total <= *old(index) < LIST_CALL_CAP,
    ensures
        final(backup).wf(),
        next is Some ==> final(backup).entry_total <= *final(index) < LIST_CALL_CAP,
        reply is None ==> *final(index) == 0
            && (next matches Some(m) && is_request(m, BACKUP_TAG_LIST_REQUEST, seq![0u64]))
            && final(backup).pending_restore_name@ == zeros(32)
            && *final(backup) == (BackupUiState {
                phase: BackupPhase::Listing,
                entry_count: 0,
                entry_total: 0,
                list_error: None,
                selected: 0,
                export_outcome: None,
                restore_outcome: None,
                delete_outcome: None,
                prompt: None,
                pending_restore_len: 0,
                pending_restore_name: final(backup).pending_restore_name,
                ..*old(backup)
            }),
        reply matches Some(Err(_)) ==> next is None && *final(index) == *old(index)
            && *final(backup) == (BackupUiState { unavailable: Some(BackupUnavailable::TransportFailure), phase: BackupPhase::Ready, ..*old(backup) }),
        reply matches Some(Ok(r)) ==> exists|s1: BackupUiState, d: Result<Option<BackupSnapshotEntry>, BackupOpError>| #[trigger] list_step(*old(backup), r, s1, d) && {
            let more = d matches Ok(Some(_)) && *old(index) + 1 < LIST_CALL_CAP;
            &&& more ==> *final(backup) == s1 && *final(index) == *old(index) + 1
                && (next matches Some(m) && is_request(m, BACKUP_TAG_LIST_REQUEST, seq![(*old(index) + 1) as u64]))
            &&& !more ==> *final(backup) == settled(s1) && next is None
        },
{
    match reply {
        None => {
            backup.begin_listing();
            *index = 0;
            Some(backup.encode_list_request(0))
        },
        Some(Err(_)) => {
            let _ = note_transport_outcome(backup);
            None
        },
        Some(Ok(r)) => {
            let ghost s0 = *backup;
            let d = backup.decode_list_reply(&r);
            let ghost s1 = *backup;
            assert(list_step(s0, r, s1, d));
            let more = match d {
                Ok(Some(_)) => *index + 1 < LIST_CALL_CAP,
                _ => false,
            };
            if more {
                *index = *index + 1;
                Some(backup.encode_list_request(*index))
            } else {
                if backup.phase == BackupPhase::Listing {
                    backup.phase = BackupPhase::Ready;
                }
                None
            }
        },
    }
}

/// Step of exporting the scopes in `scope_mask`. Called without a reply
/// it starts the export (see `export_begun`) and yields the request; a
/// refused start records its error as the outcome and settles as `Ready`.
/// With the reply it takes it (see `export_step`); a failed round trip
/// marks the route broken and records `Transport`.
pub fn perform_export(backup: &mut BackupUiState, scope_mask: u32, reply: Option<crate::error::Result<RawMessage>>) -> (next: Option<RawMessage>)
    requires
        round_trip_wf(reply),
    ensures
        reply is None ==> exists|s1: BackupUiState, r: Result<RawMessage, BackupOpError>| #[trigger] export_begun(*old(backup), scope_mask, s1, r) && match r {
            Ok(m) => *final(backup) == s1 && next == Some(m),
            Err(e) => *final(backup) == (BackupUiState { phase: BackupPhase::Ready, export_outcome: Some(Err(e)), ..s1 }) && next is None,
        },
        reply matches Some(Ok(r)) ==> next is None && exists|d: Result<BackupExportInfo, BackupOpError>| #[trigger] export_step(*old(backup), r, *final(backup), d),
        reply matches Some(Err(_)) ==> next is None && *final(backup) == (BackupUiState {
            unavailable: Some(BackupUnavailable::TransportFailure),
            phase: BackupPhase::Ready,
            export_outcome: Some(Err(BackupOpError::Transport)),
            ..*old(backup)
        }),
{
    match reply {
        None => {
            let ghost s0 = *backup;
            let r = backup.begin_export(scope_mask);
            let ghost s1 = *backup;
            assert(export_begun(s0, scope_mask, s1, r));
            match r {
                Ok(m) => Some(m),
                Err(e) => {
                    backup.phase = BackupPhase::Ready;
                    backup.export_outcome = Some(Err(e));
                    None
                },
            }
        },
        Some(Ok(r)) => {
            let ghost s0 = *backup;
            let d = backup.on_export_reply(&r);
            assert(export_step(s0, r, *backup, d));
            None
        },
        Some(Err(_)) => {
            let e = note_transport_outcome(backup);
            backup.export_outcome = Some(Err(e));
            None
        },
    }
}

/// Step of the restore dry run of the selected snapshot over `scope_mask`.
/// Called without a reply it starts the dry run (see `dry_run_begun`) and
/// yields the request; a refused start records its error as the outcome
/// and settles as `Ready`. With the reply it takes it (see
/// `restore_step`; a clean dry run opens the confirm prompt); a failed
/// round trip marks the route broken and records `Transport`.
pub fn perform_restore_dry_run(backup: &mut BackupUiState, scope_mask: u32, reply: Option<crate::error::Result<RawMessage>>) -> (next: Option<RawMessage>)
    requires
        old(backup).wf(),
        round_trip_wf(reply),
    ensures
        final(backup).wf(),
        reply is None ==> exists|s1: BackupUiState, r: Result<RawMessage, BackupOpError>| #[trigger] dry_run_begun(*old(backup), scope_mask, s1, r) && match r {
            Ok(m) => *final(backup) == s1 && next == Some(m),
            Err(e) => *final(backup) == (BackupUiState { phase: BackupPhase::Ready, restore_outcome: Some(Err(e)), ..s1 }) && next is None,
        },
        reply matches Some(Ok(r)) ==> next is None && exists|d: Result<BackupRestoreReport, BackupOpError>| #[trigger] restore_step(*old(backup), r, *final(backup), d),
        reply matches Some(Err(_)) ==> next is None && *final(backup) == (BackupUiState {
            unavailable: Some(BackupUnavailable::TransportFailure),
            phase: BackupPhase::Ready,
            restore_outcome: Some(Err(BackupOpError::Transport)),
            ..*old(backup)
        }),
{
    match reply {
        None => {
            let ghost s0 = *backup;
            let r = backup.begin_restore_dry_run(scope_mask);
            let ghost s1 = *backup;
            assert(dry_run_begun(s0, scope_mask, s1, r));
            match r {
                Ok(m) => Some(m),
                Err(e) => {
                    backup.phase = BackupPhase::Ready;
                    backup.restore_outcome = Some(Err(e));
                    None
                },
            }
        },
        Some(Ok(r)) => {
            let ghost s0 = *backup;
            let d = backup.on_restore_reply(&r);
            assert(restore_step(s0, r, *backup, d));
            None
        },
        Some(Err(_)) => {
            let e = note_transport_outcome(backup);
            backup.restore_outcome = Some(Err(e));
            None
        },
    }
}

/// Step of applying the confirmed restore over `scope_mask`. Called
/// without a reply it confirms (see `apply_begun`) and yields the request;
/// a refused confirm records its error as the outcome and settles as
/// `Ready`. With the reply it takes it (see `restore_step`); a failed round
/// trip marks the route broken and records `Transport`.
pub fn perform_restore_apply(backup: &mut BackupUiState, scope_mask: u32, reply: Option<crate::error::Result<RawMessage>>) -> (next: Option<RawMessage>)
    requires
        old(backup).wf(),
        round_trip_wf(reply),
    ensures
        final(backup).wf(),
        reply is None ==> exists|s1: BackupUiState, r: Result<RawMessage, BackupOpError>| #[trigger] apply_begun(*old(backup), scope_mask, s1, r) && match r {
            Ok(m) => *final(backup) == s1 && next == Some(m),
            Err(e) => *final(backup) == (BackupUiState { phase: BackupPhase::Ready, restore_outcome: Some(Err(e)), ..s1 }) && next is None,
        },
        reply matches Some(Ok(r)) ==> next is None && exists|d: Result<BackupRestoreReport, BackupOpError>| #[trigger] restore_step(*old(backup), r, *final(backup), d),
        reply matches Some(Err(_)) ==> next is None && *final(backup) == (BackupUiState {
            unavailable: Some(BackupUnavailable::TransportFailure),
            phase: BackupPhase::Ready,
            restore_outcome: Some(Err(BackupOpError::Transport)),
            ..*old(backup)
        }),
{
    match reply {
        None => {
            let ghost s0 = *backup;
            let r = backup.confirm_restore_apply(scope_mask);
            let ghost s1 = *backup;
            assert(apply_begun(s0, scope_mask, s1, r));
            match r {
                Ok(m) => Some(m),
                Err(e) => {
                    backup.phase = BackupPhase::Ready;
                    backup.restore_outcome = Some(Err(e));
                    None
                },
            }
        },
        Some(Ok(r)) => {
            let ghost s0 = *backup;
            let d = backup.on_restore_reply(&r);
            assert(restore_step(s0, r, *backup, d));
            None
        },
        Some(Err(_)) => {
            let e = note_transport_outcome(backup);
            backup.restore_outcome = Some(Err(e));
            None
        },
    }
}

/// Step of deleting the selected snapshot once confirmed. Called without a
/// reply it confirms (see `delete_begun`) and yields the request; a refused
/// confirm records its error as the outcome and settles as `Ready`. With
/// the reply it takes it (see `delete_step`); a failed round trip marks the
/// route broken and records `Transport`.
pub fn perform_delete(backup: &mut BackupUiState, reply: Option<crate::error::Result<RawMessage>>) -> (next: Option<RawMessage>)
    requires
        old(backup).wf(),
        round_trip_wf(reply),
    ensures
        final(backup).wf(),
        reply is None ==> exists|s1: BackupUiState, r: Result<RawMessage, BackupOpError>| #[trigger] delete_begun(*old(backup), s1, r) && match r {
            Ok(m) => *final(backup) == s1 && next == Some(m),
            Err(e) => *final(backup) == (BackupUiState { phase: BackupPhase::Ready, delete_outcome: Some(Err(e)), ..s1 }) && next is None,
        },
        reply matches Some(Ok(r)) ==> next is None && exists|d: Result<(), BackupOpError>| #[trigger] delete_step(*old(backup), r, *final(backup), d),
        reply matches Some(Err(_)) ==> next is None && *final(backup) == (BackupUiState {
            unavailable: Some(BackupUnavailable::TransportFailure),
            phase: BackupPhase::Ready,
            delete_outcome: Some(Err(BackupOpError::Transport)),
            ..*old(backup)
        }),
{
    match reply {
        None => {
            let ghost s0 = *backup;
            let r = backup.confirm_delete();
            let ghost s1 = *backup;
            assert(delete_begun(s0, s1, r));
            match r {
                Ok(m) => Some(m),
                Err(e) => {
                    backup.phase = BackupPhase::Ready;
                    backup.delete_outcome = Some(Err(e));
                    None
                },
            }
        },
        Some(Ok(r)) => {
            let ghost s0 = *backup;
            let d = backup.on_delete_reply(&r);
            assert(delete_step(s0, r, *backup, d));
            None
        },
        Some(Err(_)) => {
            let e = note_transport_outcome(backup);
            backup.delete_outcome = Some(Err(e));
            None
        },
    }
}

impl BackupSnapshotEntry {
    /// The listed path as text, when it is valid UTF-8.
    pub fn path_str(&self) -> (t: Option<&str>)
        requires
            entry_wf(*self),
        ensures
            t is Some <==> vstd::utf8::valid_utf8(self.path@.subrange(0, self.path_len as int)),
            t matches Some(p) ==> p.spec_bytes() == self.path@.subrange(0, self.path_len as int),
    {
        crate::text::str_from_utf8(vstd::slice::slice_subrange(self.path.as_slice(), 0, self.path_len))
    }
}

} // verus!
