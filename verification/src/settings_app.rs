//! The settings app's controller: its pages and editors, what each key,
//! text and pointer event does to them, and the calls an event asks of
//! the services (which the app performs, handing the outcome back).
use vstd::prelude::*;
use vstd::string::StringSliceAdditionalSpecFns;
use vstd::utf8::valid_utf8;

use crate::abi::{AppControlTag, AppKeyAction, AppPointerAction, AudioStreamDirection, AudioStreamState, NetworkTag, PermissionPolicyState};
use crate::backup::{fresh_backup, page_live, zeros, BackupPrompt, BackupUiState};
use crate::error::Result;
use crate::message::{is_request, RawMessage};
use crate::network::{
    counted_bytes_words, diag_ping_result, diag_ping_words, network_diag_ping_stats_parse_reply,
    network_diag_ping_stats_request, network_hostname_set_request, NETWORK_NAME_BYTES_MAX,
};
use crate::settings::{format_ipv4, ipv4_text, lemma_decimal_digits, octet, ping_target_address};
use crate::text::{lemma_ascii_valid_utf8, str_from_utf8};
use crate::types::{AudioStreamInfo, NetworkDiagPingStats, NetworkInterfaceStatusInfo};
use crate::wifi_page::{
    begin_join, begin_saved_remove, editing_stopped, fresh_wifi, join_begun, prompt_backspace_step, prompt_char_step,
    prompt_entered, saved_remove_begun, wifi_prompt_backspace, wifi_prompt_char, wifi_prompt_enter, WifiCall,
    WifiPrompt, WifiUiState,
};

verus! {

pub const TAB_SYSTEM_X0: i32 = 10;
pub const TAB_SYSTEM_X1: i32 = 98;
pub const TAB_SECURITY_X0: i32 = 106;
pub const TAB_SECURITY_X1: i32 = 214;
pub const TAB_NETWORK_X0: i32 = 222;
pub const TAB_NETWORK_X1: i32 = 322;
pub const TAB_WIFI_X0: i32 = 330;
pub const TAB_WIFI_X1: i32 = 398;
pub const TAB_BACKUP_X0: i32 = 406;
pub const TAB_BACKUP_X1: i32 = 486;
pub const TAB_Y0: i32 = 36;
pub const TAB_Y1: i32 = 56;
pub const NOTE_FIELD_X0: i32 = 10;
pub const NOTE_FIELD_Y0: i32 = 114;
pub const NOTE_FIELD_X1: i32 = 232;
pub const NOTE_FIELD_Y1: i32 = 138;
pub const AUDIO_TEST_X0: i32 = 10;
pub const AUDIO_TEST_Y0: i32 = 144;
pub const AUDIO_TEST_X1: i32 = 118;
pub const AUDIO_TEST_Y1: i32 = 164;
pub const SEC_PREV_X0: i32 = 10;
pub const SEC_PREV_X1: i32 = 58;
pub const SEC_NEXT_X0: i32 = 66;
pub const SEC_NEXT_X1: i32 = 114;
pub const SEC_ACTION_Y0: i32 = 146;
pub const SEC_ACTION_Y1: i32 = 166;
pub const SEC_ALLOW_X0: i32 = 122;
pub const SEC_ALLOW_X1: i32 = 174;
pub const SEC_BLOCK_X0: i32 = 182;
pub const SEC_BLOCK_X1: i32 = 234;
pub const SEC_DEFAULT_X0: i32 = 242;
pub const SEC_DEFAULT_X1: i32 = 308;
pub const SEC_RUNTIME_Y0: i32 = 176;
pub const SEC_RUNTIME_Y1: i32 = 196;
pub const SEC_APPROVE_X0: i32 = 122;
pub const SEC_APPROVE_X1: i32 = 190;
pub const SEC_DENY_X0: i32 = 198;
pub const SEC_DENY_X1: i32 = 246;
pub const SEC_RESET_X0: i32 = 254;
pub const SEC_RESET_X1: i32 = 308;
pub const NET_HOSTNAME_FIELD_X0: i32 = 100;
pub const NET_HOSTNAME_FIELD_Y0: i32 = 98;
pub const NET_HOSTNAME_FIELD_X1: i32 = 236;
pub const NET_HOSTNAME_FIELD_Y1: i32 = 118;
pub const NET_PING_RUN_X0: i32 = 100;
pub const NET_PING_RUN_Y0: i32 = 152;
pub const NET_PING_RUN_X1: i32 = 190;
pub const NET_PING_RUN_Y1: i32 = 170;
pub const BACKUP_BTN_Y0: i32 = 196;
pub const BACKUP_BTN_Y1: i32 = 212;
pub const BACKUP_EXPORT_BTN_X0: i32 = 10;
pub const BACKUP_EXPORT_BTN_X1: i32 = 86;
pub const BACKUP_RESTORE_BTN_X0: i32 = 94;
pub const BACKUP_RESTORE_BTN_X1: i32 = 170;
pub const BACKUP_DELETE_BTN_X0: i32 = 178;
pub const BACKUP_DELETE_BTN_X1: i32 = 254;
pub const BACKUP_LIST_Y0: i32 = 230;
/// Row pitch of the backup page's snapshot list.
pub const BACKUP_ROW_H: i32 = 10;
pub const BACKUP_PROMPT_BTN_Y0: i32 = 336;
pub const BACKUP_PROMPT_BTN_Y1: i32 = 352;
pub const BACKUP_CONFIRM_BTN_X0: i32 = 10;
pub const BACKUP_CONFIRM_BTN_X1: i32 = 86;
pub const BACKUP_CANCEL_BTN_X0: i32 = 94;
pub const BACKUP_CANCEL_BTN_X1: i32 = 170;
pub const WIFI_BTN_Y0: i32 = 106;
pub const WIFI_BTN_Y1: i32 = 122;
pub const WIFI_SCAN_BTN_X0: i32 = 10;
pub const WIFI_SCAN_BTN_X1: i32 = 86;
pub const WIFI_JOIN_BTN_X0: i32 = 94;
pub const WIFI_JOIN_BTN_X1: i32 = 170;
pub const WIFI_ROW_X0: i32 = 10;
pub const WIFI_ROW_X1: i32 = 310;
pub const WIFI_ROW_H: i32 = 12;
pub const WIFI_SCAN_ROW_Y0: i32 = 140;
pub const WIFI_SAVED_ROW_Y0: i32 = 178;
pub const WIFI_ADD_BTN_X0: i32 = 10;
pub const WIFI_ADD_BTN_X1: i32 = 86;
pub const WIFI_REMOVE_BTN_X0: i32 = 94;
pub const WIFI_REMOVE_BTN_X1: i32 = 186;
pub const WIFI_ACTION_Y0: i32 = 202;
pub const WIFI_ACTION_Y1: i32 = 218;
/// Longest note the system page keeps.
pub const NOTE_MAX_BYTES: usize = 24;
/// Longest hostname the network page's editor keeps.
pub const HOSTNAME_EDIT_MAX_BYTES: usize = 48;
/// Room for a ping target's dotted text.
pub const PING_TARGET_MAX_BYTES: usize = 16;
/// Probes of one diagnostics ping.
pub const PING_PROBE_COUNT: usize = 4;
pub const KEY_ESC: u32 = 1;
pub const KEY_BACKSPACE: u32 = 14;
pub const KEY_TAB: u32 = 15;
pub const KEY_ENTER: u32 = 28;
pub const KEY_UP: u32 = 103;
pub const KEY_DOWN: u32 = 108;

/// The app's pages, in tab order.
#[derive(Clone, Copy, Debug, PartialEq, Eq, Structural)]
pub enum SettingsPage {
    System,
    Security,
    Network,
    Wifi,
    Backup,
}

impl SettingsPage {
    pub open spec fn spec_next(self) -> SettingsPage {
        match self {
            SettingsPage::System => SettingsPage::Security,
            SettingsPage::Security => SettingsPage::Network,
            SettingsPage::Network => SettingsPage::Wifi,
            SettingsPage::Wifi => SettingsPage::Backup,
            SettingsPage::Backup => SettingsPage::System,
        }
    }

    /// The page after this one in tab order; the last wraps to the first.
    #[verifier::when_used_as_spec(spec_next)]
    pub fn next(self) -> (n: SettingsPage)
        ensures
            n == self.spec_next(),
    {
        match self {
            SettingsPage::System => SettingsPage::Security,
            SettingsPage::Security => SettingsPage::Network,
            SettingsPage::Network => SettingsPage::Wifi,
            SettingsPage::Wifi => SettingsPage::Backup,
            SettingsPage::Backup => SettingsPage::System,
        }
    }
}

/// The app's state: the window, the page, the editors, the last ping, and
/// the wireless and backup pages' own state.
pub struct AppState {
    pub width: u32,
    pub height: u32,
    pub focused: bool,
    pub page: SettingsPage,
    pub editing_note: bool,
    pub editing_hostname: bool,
    pub selected_policy_index: usize,
    pub note: [u8; 24],
    pub note_len: usize,
    pub hostname_edit: [u8; 48],
    pub hostname_edit_len: usize,
    pub ping_stats: Option<NetworkDiagPingStats>,
    pub ping_failed: bool,
    pub ping_target: [u8; 16],
    pub ping_target_len: usize,
    pub wifi: WifiUiState,
    pub backup: BackupUiState,
}

/// A call an event asks of the services. The app performs it and hands the
/// outcome to the matching function: a scan to `finish_scan`, a saved-list
/// reload to `finish_saved_list`, a wireless call to its `finish_*` (then
/// reloading the saved list when asked), the backup page's actions to its
/// page steps, the policy count to `select_next_policy`, a ping's interface
/// status to `begin_ping`; the policy and runtime decisions, the tone and
/// the hostname are sent as they are.
#[derive(Debug)]
pub enum SettingsCommand {
    Nothing,
    WifiScan,
    WifiReloadSaved,
    Wifi { call: WifiCall, reload_saved: bool },
    BackupEnter,
    BackupExport,
    BackupRestoreDryRun,
    BackupRestoreApply,
    BackupDelete,
    PlayTone,
    SelectNextPolicy,
    SetPolicy(PermissionPolicyState),
    DecideRuntime(PermissionPolicyState),
    Ping,
    CommitHostname(RawMessage),
}

impl AppState {
    /// The bounds the app keeps: each editor within its buffer, and the
    /// wireless and backup pages well formed.
    pub open spec fn wf(&self) -> bool {
        &&& self.note_len <= 24
        &&& self.hostname_edit_len <= 48
        &&& self.ping_target_len <= 16
        &&& self.wifi.wf()
        &&& self.backup.wf()
    }

    /// The app as it starts: the system page of a `width` by `height`
    /// window, no editor open, nothing typed, no ping, and fresh wireless
    /// and backup pages.
    pub fn new(width: u32, height: u32, focused: bool) -> (s: Self)
        ensures
            s.wf(),
            s.width == width && s.height == height && s.focused == focused,
            s.page == SettingsPage::System,
            !s.editing_note && !s.editing_hostname && s.selected_policy_index == 0,
            s.note_len == 0 && s.hostname_edit_len == 0 && s.ping_target_len == 0,
            s.note@ == zeros(24) && s.hostname_edit@ == zeros(48) && s.ping_target@ == zeros(16),
            s.ping_stats is None && !s.ping_failed,
            fresh_wifi(s.wifi),
            fresh_backup(s.backup),
    {
        let s = AppState {
            width,
            height,
            focused,
            page: SettingsPage::System,
            editing_note: false,
            editing_hostname: false,
            selected_policy_index: 0,
            note: [0u8; 24],
            note_len: 0,
            hostname_edit: [0u8; 48],
            hostname_edit_len: 0,
            ping_stats: None,
            ping_failed: false,
            ping_target: [0u8; 16],
            ping_target_len: 0,
            wifi: WifiUiState::new(),
            backup: BackupUiState::new(),
        };
        assert(s.note@ =~= zeros(24));
        assert(s.hostname_edit@ =~= zeros(48));
        assert(s.ping_target@ =~= zeros(16));
        s
    }
}

/// The pointer action a word names, if any.
pub fn app_pointer_action_from_word(value: u64) -> (a: Option<AppPointerAction>)
    ensures
        a matches Some(x) ==> x.spec_code() == value as u32,
        a is None ==> value as u32 > 2,
{
    let v = value as u32;
    if v == AppPointerAction::Down.code() {
        Some(AppPointerAction::Down)
    } else if v == AppPointerAction::Move.code() {
        Some(AppPointerAction::Move)
    } else if v == AppPointerAction::Up.code() {
        Some(AppPointerAction::Up)
    } else {
        None
    }
}

/// The key action a word names, if any.
pub fn app_key_action_from_word(value: u64) -> (a: Option<AppKeyAction>)
    ensures
        a matches Some(x) ==> x.spec_code() == value as u32,
        a is None ==> value as u32 > 1,
{
    let v = value as u32;
    if v == AppKeyAction::Down.code() {
        Some(AppKeyAction::Down)
    } else if v == AppKeyAction::Up.code() {
        Some(AppKeyAction::Up)
    } else {
        None
    }
}

/// A visible ASCII character (what `char::is_ascii_graphic` accepts).
pub open spec fn graphic(ch: char) -> bool {
    '!' <= ch <= '~'
}

/// What a text event carrying the character `word` does: characters
/// outside ASCII change nothing. The open wireless prompt takes the
/// character first (see `prompt_char_step`); else the note editor, where a
/// newline closes the editor and a visible character or space is appended
/// while it fits; else the hostname editor, which appends a visible
/// character while it fits.
pub open spec fn text_step(before: AppState, word: u64, after: AppState, changed: bool) -> bool {
    let v = word as u32;
    if v >= 128 {
        !changed && after == before
    } else {
        let ch = v as char;
        if before.wifi.prompt is Some {
            after == (AppState { wifi: after.wifi, ..before }) && prompt_char_step(before.wifi, ch, after.wifi, changed)
        } else if before.editing_note {
            if ch == '\n' {
                changed && after == (AppState { editing_note: false, ..before })
            } else if (graphic(ch) || ch == ' ') && before.note_len < 24 {
                changed && after.note@ == before.note@.update(before.note_len as int, v as u8)
                    && after == (AppState { note: after.note, note_len: (before.note_len + 1) as usize, ..before })
            } else {
                !changed && after == before
            }
        } else if before.editing_hostname && graphic(ch) && before.hostname_edit_len < 48 {
            changed && after.hostname_edit@ == before.hostname_edit@.update(before.hostname_edit_len as int, v as u8)
                && after == (AppState { hostname_edit: after.hostname_edit, hostname_edit_len: (before.hostname_edit_len + 1) as usize, ..before })
        } else {
            !changed && after == before
        }
    }
}

/// Feeds one text event into the active editor: the wireless prompt, the
/// note field, or the hostname field (see `text_step`).
pub fn append_text_input(state: &mut AppState, word: u64) -> (changed: bool)
    requires
        old(state).wf(),
    ensures
        final(state).wf(),
        text_step(*old(state), word, *final(state), changed),
{
    let v = word as u32;
    if v >= 128 {
        return false;
    }
    let b = v as u8;
    let ch = b as char;
    if state.wifi.prompt.is_some() {
        return wifi_prompt_char(&mut state.wifi, ch);
    }
    if state.editing_note {
        if ch == '\n' {
            state.editing_note = false;
            return true;
        }
        if ('!' <= ch && ch <= '~') || ch == ' ' {
            if state.note_len < NOTE_MAX_BYTES {
                let at = state.note_len;
                state.note[at] = b;
                state.note_len = at + 1;
                return true;
            }
        }
        return false;
    }
    if state.editing_hostname && '!' <= ch && ch <= '~' {
        if state.hostname_edit_len < HOSTNAME_EDIT_MAX_BYTES {
            let at = state.hostname_edit_len;
            state.hostname_edit[at] = b;
            state.hostname_edit_len = at + 1;
            return true;
        }
    }
    false
}

/// The hostname typed in the network page's editor.
pub open spec fn typed_hostname(s: AppState) -> Seq<u8> {
    s.hostname_edit@.subrange(0, s.hostname_edit_len as int)
}

/// Committing the typed hostname: the set request when the typed bytes
/// are UTF-8, not empty and within the name limit; nothing otherwise.
pub fn commit_hostname(state: &AppState) -> (m: Option<RawMessage>)
    requires
        state.wf(),
    ensures
        ({
            let name = typed_hostname(*state);
            if valid_utf8(name) && name.len() > 0 && name.len() <= NETWORK_NAME_BYTES_MAX {
                m matches Some(r) && is_request(r, NetworkTag::HostnameSetRequest.spec_code(), counted_bytes_words(name))
            } else {
                m is None
            }
        }),
{
    let (head, _) = state.hostname_edit.as_slice().split_at(state.hostname_edit_len);
    let name = match str_from_utf8(head) {
        Some(s) => s,
        None => return None,
    };
    if name.as_bytes().len() == 0 {
        return None;
    }
    match network_hostname_set_request(name) {
        Ok(m) => Some(m),
        Err(_) => None,
    }
}

/// Moves the policy selection down one row when a row follows it among the
/// `count` listed policies; whether it moved.
pub fn select_next_policy(state: &mut AppState, count: usize) -> (moved: bool)
    ensures
        moved == (old(state).selected_policy_index + 1 < count),
        moved ==> *final(state) == (AppState { selected_policy_index: (old(state).selected_policy_index + 1) as usize, ..*old(state) }),
        !moved ==> *final(state) == *old(state),
{
    if count > 0 && state.selected_policy_index < count - 1 {
        state.selected_policy_index = state.selected_policy_index + 1;
        true
    } else {
        false
    }
}

/// A ping that reaches no target: no statistics, the failure shown, no
/// target text.
pub open spec fn ping_unreachable(before: AppState, after: AppState) -> bool {
    after == (AppState { ping_stats: None, ping_failed: true, ping_target_len: 0, ..before })
}

/// What starting a ping against `target` does: the target's dotted text is
/// shown, and the statistics request for it is returned.
pub open spec fn ping_started(before: AppState, target: u32, after: AppState, m: Option<RawMessage>) -> bool {
    let text = ipv4_text(target);
    &&& after.ping_target_len == text.len()
    &&& after.ping_target@.subrange(0, text.len() as int) == text
    &&& after.ping_target@.subrange(text.len() as int, 16) == before.ping_target@.subrange(text.len() as int, 16)
    &&& after == (AppState { ping_target: after.ping_target, ping_target_len: after.ping_target_len, ..before })
    &&& m matches Some(r) && is_request(r, NetworkTag::DiagPingStatsRequest.spec_code(), diag_ping_words(text, PING_PROBE_COUNT))
}

proof fn lemma_ipv4_text_shape(target: u32)
    ensures
        ipv4_text(target).len() <= 15,
        forall|i: int| 0 <= i < ipv4_text(target).len() ==> #[trigger] ipv4_text(target)[i] < 128,
{
    let t = ipv4_text(target);
    assert forall|k: int| 0 <= k < 4 implies #[trigger] octet(target, k) < 256 by {
        let s = (24 - 8 * k) as u32;
        assert((target >> s) & 0xff <= 0xff) by (bit_vector);
    }
    lemma_decimal_digits(octet(target, 0));
    lemma_decimal_digits(octet(target, 1));
    lemma_decimal_digits(octet(target, 2));
    lemma_decimal_digits(octet(target, 3));
    assert forall|i: int| 0 <= i < t.len() implies #[trigger] t[i] < 128 by {
        let d0 = crate::settings::decimal(octet(target, 0));
        let d1 = crate::settings::decimal(octet(target, 1));
        let d2 = crate::settings::decimal(octet(target, 2));
        let d3 = crate::settings::decimal(octet(target, 3));
        if i < d0.len() {
            assert(t[i] == d0[i]);
        } else if i == d0.len() {
        } else if i < d0.len() + 1 + d1.len() {
            assert(t[i] == d1[i - d0.len() - 1]);
        } else if i == d0.len() + 1 + d1.len() {
        } else if i < d0.len() + 2 + d1.len() + d2.len() {
            assert(t[i] == d2[i - d0.len() - 2 - d1.len()]);
        } else if i == d0.len() + 2 + d1.len() + d2.len() {
        } else {
            assert(t[i] == d3[i - d0.len() - 3 - d1.len() - d2.len()]);
        }
    }
}

/// Starts a ping against `target` (see `ping_started`).
pub fn run_ping(state: &mut AppState, target: u32) -> (m: Option<RawMessage>)
    requires
        old(state).wf(),
    ensures
        final(state).wf(),
        ping_started(*old(state), target, *final(state), m),
{
    let dotted = format_ipv4(target);
    proof {
        lemma_ipv4_text_shape(target);
        lemma_ascii_valid_utf8(dotted@);
    }
    let n = dotted.len();
    let mut i: usize = 0;
    while i < n
        invariant
            n == dotted@.len(),
            n <= 15,
            i <= n,
            state.wf(),
            forall|k: int| 0 <= k < i ==> state.ping_target@[k] == dotted@[k],
            forall|k: int| i <= k < 16 ==> state.ping_target@[k] == old(state).ping_target@[k],
            *state == (AppState { ping_target: state.ping_target, ..*old(state) }),
        decreases n - i,
    {
        state.ping_target[i] = dotted[i];
        i = i + 1;
    }
    state.ping_target_len = n;
    proof {
        assert(state.ping_target@.subrange(0, n as int) =~= dotted@);
        assert(state.ping_target@.subrange(n as int, 16) =~= old(state).ping_target@.subrange(n as int, 16));
    }
    let text = match str_from_utf8(dotted.as_slice()) {
        Some(s) => s,
        None => return None,
    };
    match network_diag_ping_stats_request(text, PING_PROBE_COUNT) {
        Ok(m) => Some(m),
        Err(_) => None,
    }
}

/// The ping button's work once the interface status is known: without a
/// target (see `ping_target_address`) the ping is unreachable; otherwise
/// it starts against the target (see `ping_started`).
pub fn begin_ping(state: &mut AppState, interface: Option<NetworkInterfaceStatusInfo>) -> (m: Option<RawMessage>)
    requires
        old(state).wf(),
    ensures
        final(state).wf(),
        ({
            let target = match interface {
                Some(i) => if i.gateway != 0 { Some(i.gateway) } else if i.dns_server != 0 { Some(i.dns_server) } else { None },
                None => None,
            };
            match target {
                None => m is None && ping_unreachable(*old(state), *final(state)),
                Some(t) => ping_started(*old(state), t, *final(state), m),
            }
        }),
{
    match ping_target_address(interface) {
        None => {
            state.ping_stats = None;
            state.ping_failed = true;
            state.ping_target_len = 0;
            None
        },
        Some(target) => run_ping(state, target),
    }
}

/// Records a ping's round trip: its statistics, or the failure.
pub fn finish_ping(state: &mut AppState, reply: Result<RawMessage>)
    ensures
        ({
            let outcome = match reply {
                Ok(r) => diag_ping_result(r),
                Err(e) => Err(e),
            };
            match outcome {
                Ok(stats) => *final(state) == (AppState { ping_stats: Some(stats), ping_failed: false, ..*old(state) }),
                Err(_) => *final(state) == (AppState { ping_stats: None, ping_failed: true, ..*old(state) }),
            }
        }),
{
    let outcome = match reply {
        Ok(r) => network_diag_ping_stats_parse_reply(&r),
        Err(e) => Err(e),
    };
    match outcome {
        Ok(stats) => {
            state.ping_stats = Some(stats);
            state.ping_failed = false;
        },
        Err(_) => {
            state.ping_stats = None;
            state.ping_failed = true;
        },
    }
}

/// The wireless call carried by a command, if any.
pub open spec fn call_of(c: SettingsCommand) -> Option<WifiCall> {
    match c {
        SettingsCommand::Wifi { call, reload_saved: _ } => Some(call),
        _ => None,
    }
}

/// The command for a wireless page action: its call, if any, and whether
/// the saved list is reloaded afterwards.
pub open spec fn wifi_command(call: Option<WifiCall>, reload_saved: bool) -> SettingsCommand {
    match call {
        Some(c) => SettingsCommand::Wifi { call: c, reload_saved },
        None => if reload_saved { SettingsCommand::WifiReloadSaved } else { SettingsCommand::Nothing },
    }
}

fn to_command(call: Option<WifiCall>, reload_saved: bool) -> (c: SettingsCommand)
    ensures
        c == wifi_command(call, reload_saved),
{
    match call {
        Some(c) => SettingsCommand::Wifi { call: c, reload_saved },
        None => if reload_saved { SettingsCommand::WifiReloadSaved } else { SettingsCommand::Nothing },
    }
}

/// `after` is `before` with only the wireless page changed.
pub open spec fn only_wifi(before: AppState, after: AppState) -> bool {
    after == (AppState { wifi: after.wifi, ..before })
}

/// `after` is `before` with only the backup page changed.
pub open spec fn only_backup(before: AppState, after: AppState) -> bool {
    after == (AppState { backup: after.backup, ..before })
}

/// The backup page's prompt closed and its pending restore forgotten.
pub open spec fn backup_prompt_closed(before: BackupUiState, after: BackupUiState) -> bool {
    &&& after.pending_restore_name@ == zeros(32)
    &&& after == (BackupUiState { prompt: None, pending_restore_len: 0, pending_restore_name: after.pending_restore_name, ..before })
}

/// Whether the saved list is reloaded after enter in the wireless prompt:
/// when enter closed the prompt and a saved-network add has an outcome
/// (or is the call about to be made).
pub open spec fn reload_after_enter(changed: bool, after: WifiUiState, call: Option<WifiCall>) -> bool {
    changed && after.prompt is None && (after.saved_add_outcome is Some || call matches Some(WifiCall::SavedAdd(_)))
}

/// What a key press does (keys: 1 escape, 14 backspace, 15 tab, 28 enter,
/// 103 up, 108 down), in order of precedence: backspace in a non-empty
/// note, then in a non-empty hostname; enter commits the hostname being
/// edited and escape abandons it; tab moves to the next page, closing every
/// editor and prompt (the backup page is entered, any other page closes the
/// backup prompt); backspace, enter and escape then go to an open wireless
/// prompt; enter joins the selected network and up and down move the
/// selection on the wireless page; up and down move the policy selection
/// on the security page (down once the policies are counted). Other keys
/// change nothing.
pub open spec fn key_step(before: AppState, key: u32, after: AppState, r: (bool, SettingsCommand)) -> bool {
    if key == KEY_BACKSPACE && before.editing_note && before.note_len > 0 {
        r.0 && r.1 == SettingsCommand::Nothing && after == (AppState { note_len: (before.note_len - 1) as usize, ..before })
    } else if key == KEY_BACKSPACE && before.editing_hostname && before.hostname_edit_len > 0 {
        r.0 && r.1 == SettingsCommand::Nothing && after == (AppState { hostname_edit_len: (before.hostname_edit_len - 1) as usize, ..before })
    } else if key == KEY_ENTER && before.editing_hostname {
        r.0 && after == (AppState { editing_hostname: false, ..before }) && {
            let name = typed_hostname(before);
            if valid_utf8(name) && name.len() > 0 && name.len() <= NETWORK_NAME_BYTES_MAX {
                r.1 matches SettingsCommand::CommitHostname(m) && is_request(m, NetworkTag::HostnameSetRequest.spec_code(), counted_bytes_words(name))
            } else {
                r.1 == SettingsCommand::Nothing
            }
        }
    } else if key == KEY_ESC && before.editing_hostname {
        r.0 && r.1 == SettingsCommand::Nothing && after == (AppState { editing_hostname: false, ..before })
    } else if key == KEY_TAB {
        let next = before.page.spec_next();
        &&& r.0
        &&& editing_stopped(before.wifi, after.wifi)
        &&& next == SettingsPage::Backup ==> r.1 == SettingsCommand::BackupEnter && after.backup == before.backup
        &&& next != SettingsPage::Backup ==> r.1 == SettingsCommand::Nothing && backup_prompt_closed(before.backup, after.backup)
        &&& after == (AppState { page: next, editing_note: false, editing_hostname: false, wifi: after.wifi, backup: after.backup, ..before })
    } else if key == KEY_BACKSPACE && before.wifi.prompt is Some {
        r.1 == SettingsCommand::Nothing && only_wifi(before, after) && prompt_backspace_step(before.wifi, after.wifi, r.0)
    } else if key == KEY_ENTER && before.wifi.prompt is Some {
        &&& only_wifi(before, after)
        &&& prompt_entered(before.wifi, after.wifi, (r.0, call_of(r.1)))
        &&& r.1 == wifi_command(call_of(r.1), reload_after_enter(r.0, after.wifi, call_of(r.1)))
    } else if key == KEY_ESC && before.wifi.prompt is Some {
        r.0 && r.1 == SettingsCommand::Nothing && only_wifi(before, after) && editing_stopped(before.wifi, after.wifi)
    } else if key == KEY_ENTER && before.page == SettingsPage::Wifi {
        &&& only_wifi(before, after)
        &&& join_begun(before.wifi, after.wifi, (r.0, call_of(r.1)))
        &&& r.1 == wifi_command(call_of(r.1), false)
    } else if key == KEY_UP && before.page == SettingsPage::Wifi {
        r.1 == SettingsCommand::Nothing && r.0 == (before.wifi.selected_scan > 0) && if r.0 {
            after == (AppState { wifi: WifiUiState { selected_scan: (before.wifi.selected_scan - 1) as usize, ..before.wifi }, ..before })
        } else {
            after == before
        }
    } else if key == KEY_DOWN && before.page == SettingsPage::Wifi {
        r.1 == SettingsCommand::Nothing && r.0 == (before.wifi.selected_scan + 1 < before.wifi.scan_count) && if r.0 {
            after == (AppState { wifi: WifiUiState { selected_scan: (before.wifi.selected_scan + 1) as usize, ..before.wifi }, ..before })
        } else {
            after == before
        }
    } else if key == KEY_UP && before.page == SettingsPage::Security {
        r.1 == SettingsCommand::Nothing && r.0 == (before.selected_policy_index > 0) && if r.0 {
            after == (AppState { selected_policy_index: (before.selected_policy_index - 1) as usize, ..before })
        } else {
            after == before
        }
    } else if key == KEY_DOWN && before.page == SettingsPage::Security {
        !r.0 && r.1 == SettingsCommand::SelectNextPolicy && after == before
    } else {
        !r.0 && r.1 == SettingsCommand::Nothing && after == before
    }
}

fn tab_to_next(state: &mut AppState) -> (r: (bool, SettingsCommand))
    requires
        old(state).wf(),
    ensures
        final(state).wf(),
        key_step(*old(state), KEY_TAB, *final(state), r),
{
    state.page = state.page.next();
    state.editing_note = false;
    state.editing_hostname = false;
    state.wifi.stop_editing();
    if state.page == SettingsPage::Backup {
        (true, SettingsCommand::BackupEnter)
    } else {
        state.backup.stop_editing();
        (true, SettingsCommand::Nothing)
    }
}

fn wifi_prompt_key(state: &mut AppState, key: u32) -> (r: (bool, SettingsCommand))
    requires
        old(state).wf(),
        old(state).wifi.prompt is Some,
        key == KEY_BACKSPACE || key == KEY_ENTER || key == KEY_ESC,
        !(key == KEY_BACKSPACE && old(state).editing_note && old(state).note_len > 0),
        !(key == KEY_BACKSPACE && old(state).editing_hostname && old(state).hostname_edit_len > 0),
        !((key == KEY_ENTER || key == KEY_ESC) && old(state).editing_hostname),
    ensures
        final(state).wf(),
        key_step(*old(state), key, *final(state), r),
{
    if key == KEY_BACKSPACE {
        let changed = wifi_prompt_backspace(&mut state.wifi);
        (changed, SettingsCommand::Nothing)
    } else if key == KEY_ENTER {
        let (changed, call) = wifi_prompt_enter(&mut state.wifi);
        let is_add = match &call {
            Some(WifiCall::SavedAdd(_)) => true,
            _ => false,
        };
        let reload = changed && state.wifi.prompt.is_none() && (state.wifi.saved_add_outcome.is_some() || is_add);
        (changed, to_command(call, reload))
    } else {
        state.wifi.stop_editing();
        (true, SettingsCommand::Nothing)
    }
}

fn wifi_page_key(state: &mut AppState, key: u32) -> (r: (bool, SettingsCommand))
    requires
        old(state).wf(),
        key == KEY_ENTER ==> old(state).wifi.prompt is None && !old(state).editing_hostname,
        old(state).page == SettingsPage::Wifi,
        key == KEY_ENTER || key == KEY_UP || key == KEY_DOWN,
    ensures
        final(state).wf(),
        key_step(*old(state), key, *final(state), r),
{
    if key == KEY_ENTER {
        let (changed, call) = begin_join(&mut state.wifi);
        (changed, to_command(call, false))
    } else if key == KEY_UP {
        if state.wifi.selected_scan > 0 {
            state.wifi.selected_scan = state.wifi.selected_scan - 1;
            (true, SettingsCommand::Nothing)
        } else {
            (false, SettingsCommand::Nothing)
        }
    } else {
        if state.wifi.selected_scan + 1 < state.wifi.scan_count {
            state.wifi.selected_scan = state.wifi.selected_scan + 1;
            (true, SettingsCommand::Nothing)
        } else {
            (false, SettingsCommand::Nothing)
        }
    }
}

/// Handles a key press (see `key_step`): whether the frame changed, and the
/// call it asks for.
pub fn handle_key_down(state: &mut AppState, key: u32) -> (r: (bool, SettingsCommand))
    requires
        old(state).wf(),
    ensures
        final(state).wf(),
        key_step(*old(state), key, *final(state), r),
{
    if key == KEY_BACKSPACE && state.editing_note && state.note_len > 0 {
        state.note_len = state.note_len - 1;
        return (true, SettingsCommand::Nothing);
    }
    if key == KEY_BACKSPACE && state.editing_hostname && state.hostname_edit_len > 0 {
        state.hostname_edit_len = state.hostname_edit_len - 1;
        return (true, SettingsCommand::Nothing);
    }
    if key == KEY_ENTER && state.editing_hostname {
        let commit = commit_hostname(state);
        state.editing_hostname = false;
        return match commit {
            Some(m) => (true, SettingsCommand::CommitHostname(m)),
            None => (true, SettingsCommand::Nothing),
        };
    }
    if key == KEY_ESC && state.editing_hostname {
        state.editing_hostname = false;
        return (true, SettingsCommand::Nothing);
    }
    if key == KEY_TAB {
        return tab_to_next(state);
    }
    if (key == KEY_BACKSPACE || key == KEY_ENTER || key == KEY_ESC) && state.wifi.prompt.is_some() {
        return wifi_prompt_key(state, key);
    }
    if (key == KEY_ENTER || key == KEY_UP || key == KEY_DOWN) && state.page == SettingsPage::Wifi {
        return wifi_page_key(state, key);
    }
    if key == KEY_UP && state.page == SettingsPage::Security {
        if state.selected_policy_index > 0 {
            state.selected_policy_index = state.selected_policy_index - 1;
            return (true, SettingsCommand::Nothing);
        }
        return (false, SettingsCommand::Nothing);
    }
    if key == KEY_DOWN && state.page == SettingsPage::Security {
        return (false, SettingsCommand::SelectNextPolicy);
    }
    (false, SettingsCommand::Nothing)
}

/// Whether the point lies in the box `[x0, x1) x [y0, y1)`.
pub open spec fn in_box(x: i32, y: i32, x0: i32, x1: i32, y0: i32, y1: i32) -> bool {
    x0 <= x < x1 && y0 <= y < y1
}

/// The row of a list starting at `y0` with rows `pitch` high that the
/// point falls on, among its `count` rows, within the list's columns.
pub open spec fn row_hit(x: i32, y: i32, y0: i32, pitch: i32, count: usize) -> Option<usize> {
    if WIFI_ROW_X0 <= x < WIFI_ROW_X1 && y >= y0 && (y - y0) / (pitch as int) < count {
        Some(((y - y0) / (pitch as int)) as usize)
    } else {
        None
    }
}

fn find_row(x: i32, y: i32, y0: i32, pitch: i32, count: usize) -> (r: Option<usize>)
    requires
        0 <= y0 <= 1000,
        pitch > 0,
    ensures
        r == row_hit(x, y, y0, pitch, count),
{
    if WIFI_ROW_X0 <= x && x < WIFI_ROW_X1 && y >= y0 {
        let row = ((y - y0) / pitch) as usize;
        if row < count {
            return Some(row);
        }
    }
    None
}

/// Whether a point falls inside the wireless prompt's overlay.
pub open spec fn inside_prompt(x: i32, y: i32) -> bool {
    WIFI_ROW_X0 <= x < WIFI_ROW_X1 && WIFI_SCAN_ROW_Y0 - 10 <= y < WIFI_ACTION_Y0
}

/// What a click does on the wireless page. An open prompt is modal: a
/// click outside its overlay closes it and nothing under it fires. Else:
/// the scan button scans; the join button joins the selected network; a
/// scan or saved row is selected; the add button opens the SSID stage; the
/// remove button removes the selected saved network (nothing with an empty
/// list) and reloads the list.
pub open spec fn wifi_pointer_step(before: AppState, x: i32, y: i32, after: AppState, r: (bool, SettingsCommand)) -> bool {
    if before.wifi.prompt is Some {
        r.0 && r.1 == SettingsCommand::Nothing && if inside_prompt(x, y) {
            after == before
        } else {
            only_wifi(before, after) && editing_stopped(before.wifi, after.wifi)
        }
    } else if in_box(x, y, WIFI_SCAN_BTN_X0, WIFI_SCAN_BTN_X1, WIFI_BTN_Y0, WIFI_BTN_Y1) {
        r.0 && r.1 == SettingsCommand::WifiScan && after == before
    } else if in_box(x, y, WIFI_JOIN_BTN_X0, WIFI_JOIN_BTN_X1, WIFI_BTN_Y0, WIFI_BTN_Y1) {
        &&& r.0 && only_wifi(before, after)
        &&& join_begun(before.wifi, after.wifi, (before.wifi.selected_scan < before.wifi.scan_count, call_of(r.1)))
        &&& r.1 == wifi_command(call_of(r.1), false)
    } else if row_hit(x, y, WIFI_SCAN_ROW_Y0, WIFI_ROW_H, before.wifi.scan_count) is Some {
        let i = row_hit(x, y, WIFI_SCAN_ROW_Y0, WIFI_ROW_H, before.wifi.scan_count)->0;
        r.0 && r.1 == SettingsCommand::Nothing && after == (AppState { wifi: WifiUiState { selected_scan: i, ..before.wifi }, ..before })
    } else if row_hit(x, y, WIFI_SAVED_ROW_Y0, WIFI_ROW_H, before.wifi.saved_count) is Some {
        let i = row_hit(x, y, WIFI_SAVED_ROW_Y0, WIFI_ROW_H, before.wifi.saved_count)->0;
        r.0 && r.1 == SettingsCommand::Nothing && after == (AppState { wifi: WifiUiState { selected_saved: i, ..before.wifi }, ..before })
    } else if in_box(x, y, WIFI_ADD_BTN_X0, WIFI_ADD_BTN_X1, WIFI_ACTION_Y0, WIFI_ACTION_Y1) {
        r.0 && r.1 == SettingsCommand::Nothing && only_wifi(before, after)
            && crate::wifi_page::prompt_opened(before.wifi, after.wifi, WifiPrompt::SavedSsid)
    } else if in_box(x, y, WIFI_REMOVE_BTN_X0, WIFI_REMOVE_BTN_X1, WIFI_ACTION_Y0, WIFI_ACTION_Y1) {
        if before.wifi.saved_count == 0 {
            r.0 && r.1 == SettingsCommand::Nothing && after == before
        } else {
            &&& r.0 && only_wifi(before, after)
            &&& saved_remove_begun(before.wifi, after.wifi, call_of(r.1))
            &&& r.1 == wifi_command(call_of(r.1), true)
        }
    } else {
        r.0 && r.1 == SettingsCommand::Nothing && after == before
    }
}

/// Routes a click on the wireless page (see `wifi_pointer_step`).
pub fn handle_wifi_pointer_down(state: &mut AppState, x: i32, y: i32) -> (r: (bool, SettingsCommand))
    requires
        old(state).wf(),
    ensures
        final(state).wf(),
        wifi_pointer_step(*old(state), x, y, *final(state), r),
{
    if state.wifi.prompt.is_some() {
        let inside = WIFI_ROW_X0 <= x && x < WIFI_ROW_X1 && WIFI_SCAN_ROW_Y0 - 10 <= y && y < WIFI_ACTION_Y0;
        if !inside {
            state.wifi.stop_editing();
        }
        return (true, SettingsCommand::Nothing);
    }
    if WIFI_SCAN_BTN_X0 <= x && x < WIFI_SCAN_BTN_X1 && WIFI_BTN_Y0 <= y && y < WIFI_BTN_Y1 {
        return (true, SettingsCommand::WifiScan);
    }
    if WIFI_JOIN_BTN_X0 <= x && x < WIFI_JOIN_BTN_X1 && WIFI_BTN_Y0 <= y && y < WIFI_BTN_Y1 {
        let (_, call) = begin_join(&mut state.wifi);
        return (true, to_command(call, false));
    }
    if let Some(i) = find_row(x, y, WIFI_SCAN_ROW_Y0, WIFI_ROW_H, state.wifi.scan_count) {
        state.wifi.selected_scan = i;
        return (true, SettingsCommand::Nothing);
    }
    if let Some(i) = find_row(x, y, WIFI_SAVED_ROW_Y0, WIFI_ROW_H, state.wifi.saved_count) {
        state.wifi.selected_saved = i;
        return (true, SettingsCommand::Nothing);
    }
    if WIFI_ADD_BTN_X0 <= x && x < WIFI_ADD_BTN_X1 && WIFI_ACTION_Y0 <= y && y < WIFI_ACTION_Y1 {
        state.wifi.open_prompt(WifiPrompt::SavedSsid);
        return (true, SettingsCommand::Nothing);
    }
    if WIFI_REMOVE_BTN_X0 <= x && x < WIFI_REMOVE_BTN_X1 && WIFI_ACTION_Y0 <= y && y < WIFI_ACTION_Y1 {
        if state.wifi.saved_count == 0 {
            return (true, SettingsCommand::Nothing);
        }
        let call = begin_saved_remove(&mut state.wifi);
        return (true, to_command(call, true));
    }
    (true, SettingsCommand::Nothing)
}

/// What a click does on the backup page. Without a trusted route nothing
/// responds. An open prompt is modal: confirm applies the restore or
/// deletes, cancel closes it, any other click does nothing. Else: export,
/// restore (its dry run first) and delete (its prompt) buttons, then the
/// snapshot rows select.
pub open spec fn backup_pointer_step(before: AppState, x: i32, y: i32, after: AppState, r: (bool, SettingsCommand)) -> bool {
    if before.backup.unavailable is Some {
        !r.0 && r.1 == SettingsCommand::Nothing && after == before
    } else if before.backup.prompt is Some {
        if in_box(x, y, BACKUP_CONFIRM_BTN_X0, BACKUP_CONFIRM_BTN_X1, BACKUP_PROMPT_BTN_Y0, BACKUP_PROMPT_BTN_Y1) {
            r.0 && after == before && r.1 == (match before.backup.prompt {
                Some(BackupPrompt::RestoreConfirm(_)) => SettingsCommand::BackupRestoreApply,
                _ => SettingsCommand::BackupDelete,
            })
        } else if in_box(x, y, BACKUP_CANCEL_BTN_X0, BACKUP_CANCEL_BTN_X1, BACKUP_PROMPT_BTN_Y0, BACKUP_PROMPT_BTN_Y1) {
            r.0 && r.1 == SettingsCommand::Nothing && only_backup(before, after) && backup_prompt_closed(before.backup, after.backup)
        } else {
            !r.0 && r.1 == SettingsCommand::Nothing && after == before
        }
    } else if in_box(x, y, BACKUP_EXPORT_BTN_X0, BACKUP_EXPORT_BTN_X1, BACKUP_BTN_Y0, BACKUP_BTN_Y1) {
        r.0 && r.1 == SettingsCommand::BackupExport && after == before
    } else if in_box(x, y, BACKUP_RESTORE_BTN_X0, BACKUP_RESTORE_BTN_X1, BACKUP_BTN_Y0, BACKUP_BTN_Y1) {
        r.0 && r.1 == SettingsCommand::BackupRestoreDryRun && after == before
    } else if in_box(x, y, BACKUP_DELETE_BTN_X0, BACKUP_DELETE_BTN_X1, BACKUP_BTN_Y0, BACKUP_BTN_Y1) {
        r.0 && r.1 == SettingsCommand::Nothing && if before.backup.selected < before.backup.entry_count {
            after == (AppState { backup: BackupUiState { prompt: Some(BackupPrompt::DeleteConfirm), ..before.backup }, ..before })
        } else {
            after == before
        }
    } else if row_hit(x, y, BACKUP_LIST_Y0, BACKUP_ROW_H, before.backup.entry_count) is Some {
        let i = row_hit(x, y, BACKUP_LIST_Y0, BACKUP_ROW_H, before.backup.entry_count)->0;
        r.0 && r.1 == SettingsCommand::Nothing && after == (AppState { backup: BackupUiState { selected: i, ..before.backup }, ..before })
    } else {
        !r.0 && r.1 == SettingsCommand::Nothing && after == before
    }
}

/// Routes a click on the backup page (see `backup_pointer_step`).
pub fn handle_backup_pointer_down(state: &mut AppState, x: i32, y: i32) -> (r: (bool, SettingsCommand))
    requires
        old(state).wf(),
    ensures
        final(state).wf(),
        backup_pointer_step(*old(state), x, y, *final(state), r),
{
    if !page_live(&state.backup) {
        return (false, SettingsCommand::Nothing);
    }
    if state.backup.prompt.is_some() {
        if BACKUP_CONFIRM_BTN_X0 <= x && x < BACKUP_CONFIRM_BTN_X1 && BACKUP_PROMPT_BTN_Y0 <= y && y < BACKUP_PROMPT_BTN_Y1 {
            return match &state.backup.prompt {
                Some(BackupPrompt::RestoreConfirm(_)) => (true, SettingsCommand::BackupRestoreApply),
                _ => (true, SettingsCommand::BackupDelete),
            };
        }
        if BACKUP_CANCEL_BTN_X0 <= x && x < BACKUP_CANCEL_BTN_X1 && BACKUP_PROMPT_BTN_Y0 <= y && y < BACKUP_PROMPT_BTN_Y1 {
            state.backup.cancel_prompt();
            return (true, SettingsCommand::Nothing);
        }
        return (false, SettingsCommand::Nothing);
    }
    if BACKUP_EXPORT_BTN_X0 <= x && x < BACKUP_EXPORT_BTN_X1 && BACKUP_BTN_Y0 <= y && y < BACKUP_BTN_Y1 {
        return (true, SettingsCommand::BackupExport);
    }
    if BACKUP_RESTORE_BTN_X0 <= x && x < BACKUP_RESTORE_BTN_X1 && BACKUP_BTN_Y0 <= y && y < BACKUP_BTN_Y1 {
        return (true, SettingsCommand::BackupRestoreDryRun);
    }
    if BACKUP_DELETE_BTN_X0 <= x && x < BACKUP_DELETE_BTN_X1 && BACKUP_BTN_Y0 <= y && y < BACKUP_BTN_Y1 {
        let _ = state.backup.begin_delete();
        return (true, SettingsCommand::Nothing);
    }
    if let Some(i) = find_row(x, y, BACKUP_LIST_Y0, BACKUP_ROW_H, state.backup.entry_count) {
        state.backup.select(i);
        return (true, SettingsCommand::Nothing);
    }
    (false, SettingsCommand::Nothing)
}

/// What a click does on the network page: the hostname field opens its
/// editor (empty, unless it is already open); the ping button closes the
/// editor and pings; any other click closes the editor.
pub open spec fn network_pointer_step(before: AppState, x: i32, y: i32, after: AppState, r: (bool, SettingsCommand)) -> bool {
    if in_box(x, y, NET_HOSTNAME_FIELD_X0, NET_HOSTNAME_FIELD_X1, NET_HOSTNAME_FIELD_Y0, NET_HOSTNAME_FIELD_Y1) {
        r.0 && r.1 == SettingsCommand::Nothing && if before.editing_hostname {
            after == before
        } else {
            after.hostname_edit@ == zeros(48)
                && after == (AppState { hostname_edit: after.hostname_edit, hostname_edit_len: 0, editing_hostname: true, ..before })
        }
    } else if in_box(x, y, NET_PING_RUN_X0, NET_PING_RUN_X1, NET_PING_RUN_Y0, NET_PING_RUN_Y1) {
        r.0 && r.1 == SettingsCommand::Ping && after == (AppState { editing_hostname: false, ..before })
    } else {
        r.0 && r.1 == SettingsCommand::Nothing && after == (AppState { editing_hostname: false, ..before })
    }
}

/// Routes a click on the network page (see `network_pointer_step`).
pub fn handle_network_pointer_down(state: &mut AppState, x: i32, y: i32) -> (r: (bool, SettingsCommand))
    requires
        old(state).wf(),
    ensures
        final(state).wf(),
        network_pointer_step(*old(state), x, y, *final(state), r),
{
    if NET_HOSTNAME_FIELD_X0 <= x && x < NET_HOSTNAME_FIELD_X1 && NET_HOSTNAME_FIELD_Y0 <= y && y < NET_HOSTNAME_FIELD_Y1 {
        if !state.editing_hostname {
            state.hostname_edit = [0u8; 48];
            state.hostname_edit_len = 0;
            state.editing_hostname = true;
            assert(state.hostname_edit@ =~= zeros(48));
        }
        return (true, SettingsCommand::Nothing);
    }
    state.editing_hostname = false;
    if NET_PING_RUN_X0 <= x && x < NET_PING_RUN_X1 && NET_PING_RUN_Y0 <= y && y < NET_PING_RUN_Y1 {
        return (true, SettingsCommand::Ping);
    }
    (true, SettingsCommand::Nothing)
}

/// What a click does on the security page (the note editor closes first):
/// the previous and next buttons move the policy selection (next once the
/// policies are counted); allow, block and default set the selected
/// policy; approve, deny and reset decide the first runtime awaiting an
/// approval. Any other press, including one on a per-kind runtime policy
/// selector row, changes nothing: those rows' places and the runtime's
/// policy-default calls are not part of this crate, so no click is mapped
/// to them.
pub open spec fn security_pointer_step(before: AppState, x: i32, y: i32, after: AppState, r: (bool, SettingsCommand)) -> bool {
    let closed = AppState { editing_note: false, ..before };
    &&& r.0
    &&& if in_box(x, y, SEC_PREV_X0, SEC_PREV_X1, SEC_ACTION_Y0, SEC_ACTION_Y1) {
        r.1 == SettingsCommand::Nothing && after == (if before.selected_policy_index > 0 {
            AppState { selected_policy_index: (before.selected_policy_index - 1) as usize, ..closed }
        } else {
            closed
        })
    } else {
        after == closed && r.1 == (if in_box(x, y, SEC_NEXT_X0, SEC_NEXT_X1, SEC_ACTION_Y0, SEC_ACTION_Y1) {
            SettingsCommand::SelectNextPolicy
        } else if in_box(x, y, SEC_ALLOW_X0, SEC_ALLOW_X1, SEC_ACTION_Y0, SEC_ACTION_Y1) {
            SettingsCommand::SetPolicy(PermissionPolicyState::Allowed)
        } else if in_box(x, y, SEC_BLOCK_X0, SEC_BLOCK_X1, SEC_ACTION_Y0, SEC_ACTION_Y1) {
            SettingsCommand::SetPolicy(PermissionPolicyState::Blocked)
        } else if in_box(x, y, SEC_DEFAULT_X0, SEC_DEFAULT_X1, SEC_ACTION_Y0, SEC_ACTION_Y1) {
            SettingsCommand::SetPolicy(PermissionPolicyState::DefaultAllow)
        } else if in_box(x, y, SEC_APPROVE_X0, SEC_APPROVE_X1, SEC_RUNTIME_Y0, SEC_RUNTIME_Y1) {
            SettingsCommand::DecideRuntime(PermissionPolicyState::Allowed)
        } else if in_box(x, y, SEC_DENY_X0, SEC_DENY_X1, SEC_RUNTIME_Y0, SEC_RUNTIME_Y1) {
            SettingsCommand::DecideRuntime(PermissionPolicyState::Blocked)
        } else if in_box(x, y, SEC_RESET_X0, SEC_RESET_X1, SEC_RUNTIME_Y0, SEC_RUNTIME_Y1) {
            SettingsCommand::DecideRuntime(PermissionPolicyState::DefaultAllow)
        } else {
            SettingsCommand::Nothing
        })
    }
}

fn handle_security_pointer_down(state: &mut AppState, x: i32, y: i32) -> (r: (bool, SettingsCommand))
    requires
        old(state).wf(),
    ensures
        final(state).wf(),
        security_pointer_step(*old(state), x, y, *final(state), r),
{
    state.editing_note = false;
    if SEC_PREV_X0 <= x && x < SEC_PREV_X1 && SEC_ACTION_Y0 <= y && y < SEC_ACTION_Y1 {
        if state.selected_policy_index > 0 {
            state.selected_policy_index = state.selected_policy_index - 1;
        }
        return (true, SettingsCommand::Nothing);
    }
    let in_actions = SEC_ACTION_Y0 <= y && y < SEC_ACTION_Y1;
    let in_runtime = SEC_RUNTIME_Y0 <= y && y < SEC_RUNTIME_Y1;
    let command = if in_actions && SEC_NEXT_X0 <= x && x < SEC_NEXT_X1 {
        SettingsCommand::SelectNextPolicy
    } else if in_actions && SEC_ALLOW_X0 <= x && x < SEC_ALLOW_X1 {
        SettingsCommand::SetPolicy(PermissionPolicyState::Allowed)
    } else if in_actions && SEC_BLOCK_X0 <= x && x < SEC_BLOCK_X1 {
        SettingsCommand::SetPolicy(PermissionPolicyState::Blocked)
    } else if in_actions && SEC_DEFAULT_X0 <= x && x < SEC_DEFAULT_X1 {
        SettingsCommand::SetPolicy(PermissionPolicyState::DefaultAllow)
    } else if in_runtime && SEC_APPROVE_X0 <= x && x < SEC_APPROVE_X1 {
        SettingsCommand::DecideRuntime(PermissionPolicyState::Allowed)
    } else if in_runtime && SEC_DENY_X0 <= x && x < SEC_DENY_X1 {
        SettingsCommand::DecideRuntime(PermissionPolicyState::Blocked)
    } else if in_runtime && SEC_RESET_X0 <= x && x < SEC_RESET_X1 {
        SettingsCommand::DecideRuntime(PermissionPolicyState::DefaultAllow)
    } else {
        SettingsCommand::Nothing
    };
    (true, command)
}

/// What a click on the system page does: the note field opens the note
/// editor; the audio test button closes it and plays the test tone; any
/// other click closes it.
pub open spec fn system_pointer_step(before: AppState, x: i32, y: i32, after: AppState, r: (bool, SettingsCommand)) -> bool {
    if in_box(x, y, NOTE_FIELD_X0, NOTE_FIELD_X1, NOTE_FIELD_Y0, NOTE_FIELD_Y1) {
        r.0 && r.1 == SettingsCommand::Nothing && after == (AppState { editing_note: true, ..before })
    } else if in_box(x, y, AUDIO_TEST_X0, AUDIO_TEST_X1, AUDIO_TEST_Y0, AUDIO_TEST_Y1) {
        r.0 && r.1 == SettingsCommand::PlayTone && after == (AppState { editing_note: false, ..before })
    } else {
        r.0 && r.1 == SettingsCommand::Nothing && after == (AppState { editing_note: false, ..before })
    }
}

/// The switch to a tab's page: the note editor closes; the hostname
/// editor closes unless `keep_hostname`; the wireless prompt closes unless
/// `keep_prompt`.
pub open spec fn tab_switched(before: AppState, page: SettingsPage, after: AppState, keep_hostname: bool, keep_prompt: bool) -> bool {
    &&& if keep_prompt { after.wifi == before.wifi } else { editing_stopped(before.wifi, after.wifi) }
    &&& after == (AppState {
        page,
        editing_note: false,
        editing_hostname: if keep_hostname { before.editing_hostname } else { false },
        wifi: after.wifi,
        ..before
    })
}

/// What a click does: the tabs switch pages on every page (the wireless
/// tab keeps its prompt and reloads the saved list, the network tab keeps
/// the hostname editor, the backup tab enters the backup page); otherwise
/// the click goes to the current page (the backup page's after closing the
/// note editor).
pub open spec fn pointer_step(before: AppState, x: i32, y: i32, after: AppState, r: (bool, SettingsCommand)) -> bool {
    if in_box(x, y, TAB_SYSTEM_X0, TAB_SYSTEM_X1, TAB_Y0, TAB_Y1) {
        r.0 && r.1 == SettingsCommand::Nothing && tab_switched(before, SettingsPage::System, after, false, false)
    } else if in_box(x, y, TAB_SECURITY_X0, TAB_SECURITY_X1, TAB_Y0, TAB_Y1) {
        r.0 && r.1 == SettingsCommand::Nothing && tab_switched(before, SettingsPage::Security, after, false, false)
    } else if in_box(x, y, TAB_NETWORK_X0, TAB_NETWORK_X1, TAB_Y0, TAB_Y1) {
        r.0 && r.1 == SettingsCommand::Nothing && tab_switched(before, SettingsPage::Network, after, true, false)
    } else if in_box(x, y, TAB_WIFI_X0, TAB_WIFI_X1, TAB_Y0, TAB_Y1) {
        r.0 && r.1 == SettingsCommand::WifiReloadSaved && tab_switched(before, SettingsPage::Wifi, after, false, true)
    } else if in_box(x, y, TAB_BACKUP_X0, TAB_BACKUP_X1, TAB_Y0, TAB_Y1) {
        r.0 && r.1 == SettingsCommand::BackupEnter && tab_switched(before, SettingsPage::Backup, after, false, false)
    } else {
        match before.page {
            SettingsPage::Wifi => wifi_pointer_step(before, x, y, after, r),
            SettingsPage::Backup => backup_pointer_step(AppState { editing_note: false, ..before }, x, y, after, r),
            SettingsPage::Network => network_pointer_step(before, x, y, after, r),
            SettingsPage::System => system_pointer_step(before, x, y, after, r),
            SettingsPage::Security => security_pointer_step(before, x, y, after, r),
        }
    }
}

fn switch_tab(state: &mut AppState, page: SettingsPage, keep_hostname: bool, keep_prompt: bool)
    requires
        old(state).wf(),
    ensures
        final(state).wf(),
        tab_switched(*old(state), page, *final(state), keep_hostname, keep_prompt),
{
    state.page = page;
    state.editing_note = false;
    if !keep_hostname {
        state.editing_hostname = false;
    }
    if !keep_prompt {
        state.wifi.stop_editing();
    }
}

/// Handles a click (see `pointer_step`): whether the frame changed, and
/// the call it asks for.
pub fn handle_pointer_down(state: &mut AppState, x: i32, y: i32) -> (r: (bool, SettingsCommand))
    requires
        old(state).wf(),
    ensures
        final(state).wf(),
        pointer_step(*old(state), x, y, *final(state), r),
{
    let in_tabs = TAB_Y0 <= y && y < TAB_Y1;
    if in_tabs && TAB_SYSTEM_X0 <= x && x < TAB_SYSTEM_X1 {
        switch_tab(state, SettingsPage::System, false, false);
        return (true, SettingsCommand::Nothing);
    }
    if in_tabs && TAB_SECURITY_X0 <= x && x < TAB_SECURITY_X1 {
        switch_tab(state, SettingsPage::Security, false, false);
        return (true, SettingsCommand::Nothing);
    }
    if in_tabs && TAB_NETWORK_X0 <= x && x < TAB_NETWORK_X1 {
        switch_tab(state, SettingsPage::Network, true, false);
        return (true, SettingsCommand::Nothing);
    }
    if in_tabs && TAB_WIFI_X0 <= x && x < TAB_WIFI_X1 {
        switch_tab(state, SettingsPage::Wifi, false, true);
        return (true, SettingsCommand::WifiReloadSaved);
    }
    if in_tabs && TAB_BACKUP_X0 <= x && x < TAB_BACKUP_X1 {
        switch_tab(state, SettingsPage::Backup, false, false);
        return (true, SettingsCommand::BackupEnter);
    }
    match state.page {
        SettingsPage::Wifi => handle_wifi_pointer_down(state, x, y),
        SettingsPage::Backup => {
            state.editing_note = false;
            handle_backup_pointer_down(state, x, y)
        },
        SettingsPage::Network => handle_network_pointer_down(state, x, y),
        SettingsPage::System => {
            if NOTE_FIELD_X0 <= x && x < NOTE_FIELD_X1 && NOTE_FIELD_Y0 <= y && y < NOTE_FIELD_Y1 {
                state.editing_note = true;
                return (true, SettingsCommand::Nothing);
            }
            state.editing_note = false;
            if AUDIO_TEST_X0 <= x && x < AUDIO_TEST_X1 && AUDIO_TEST_Y0 <= y && y < AUDIO_TEST_Y1 {
                return (true, SettingsCommand::PlayTone);
            }
            (true, SettingsCommand::Nothing)
        },
        SettingsPage::Security => handle_security_pointer_down(state, x, y),
    }
}

/// Five presses of tab come back to the page they started from, passing
/// every page once on the way.
pub proof fn lemma_tab_cycles_all_pages(p: SettingsPage)
    ensures
        p.spec_next().spec_next().spec_next().spec_next().spec_next() == p,
        p.spec_next() != p,
        p.spec_next().spec_next() != p,
        p.spec_next().spec_next().spec_next() != p,
        p.spec_next().spec_next().spec_next().spec_next() != p,
{
}

/// In the note editor, a backspace right after a character was appended
/// gives back the note as it was.
pub proof fn lemma_note_backspace_undoes_char(s0: AppState, word: u64, s1: AppState, typed_it: bool, s2: AppState, r: (bool, SettingsCommand))
    requires
        s0.wf(),
        s0.editing_note,
        s0.wifi.prompt is None,
        text_step(s0, word, s1, typed_it),
        typed_it,
        word as u32 != 10,
        key_step(s1, KEY_BACKSPACE, s2, r),
    ensures
        r.0,
        s2.note@.subrange(0, s2.note_len as int) == s0.note@.subrange(0, s0.note_len as int),
        s2 == (AppState { note: s2.note, ..s0 }),
{
    assert(s2.note@.subrange(0, s2.note_len as int) =~= s0.note@.subrange(0, s0.note_len as int));
}

/// The state the system page's audio test stream starts from: a closed
/// playback stream in slot zero, nothing playing.
pub fn settings_pcm_stream_info() -> (info: AudioStreamInfo)
    ensures
        info == (AudioStreamInfo {
            slot: 0,
            direction: AudioStreamDirection::Playback,
            state: AudioStreamState::Closed,
            session_id: 0,
            endpoint_index: 0,
            frequency_hz: 0,
            remaining_ticks: 0,
        }),
{
    AudioStreamInfo {
        slot: 0,
        direction: AudioStreamDirection::Playback,
        state: AudioStreamState::Closed,
        session_id: 0,
        endpoint_index: 0,
        frequency_hz: 0,
        remaining_ticks: 0,
    }
}

/// What one app-control message asks of the app: carry on (whether the
/// frame changed, and the call to make), or exit.
#[derive(Debug)]
pub enum ControlStep {
    Continue { changed: bool, command: SettingsCommand },
    Exit,
}

/// What one app-control message does: a focus change (one word) sets the
/// focus; a resize (two words) sets the window size; a pointer press (four
/// words, action down) and a key press (two words, action down) go to
/// `pointer_step` and `key_step`; a text event (one word) to `text_step`;
/// close exits. Other messages, and pointer or key events of other
/// actions, change nothing.
pub open spec fn control_rel(before: AppState, m: RawMessage, after: AppState, out: ControlStep) -> bool {
    if m.tag == AppControlTag::FocusChanged.spec_code() && m.word_count > 0 {
        out == (ControlStep::Continue { changed: true, command: SettingsCommand::Nothing })
            && after == (AppState { focused: m.words[0] != 0, ..before })
    } else if m.tag == AppControlTag::Resize.spec_code() && m.word_count >= 2 {
        out == (ControlStep::Continue { changed: true, command: SettingsCommand::Nothing })
            && after == (AppState { width: m.words[0] as u32, height: m.words[1] as u32, ..before })
    } else if m.tag == AppControlTag::Pointer.spec_code() && m.word_count >= 4 {
        if m.words[0] as u32 == AppPointerAction::Down.spec_code() {
            out matches ControlStep::Continue { changed, command }
                && pointer_step(before, m.words[1] as i32, m.words[2] as i32, after, (changed, command))
        } else {
            out == (ControlStep::Continue { changed: false, command: SettingsCommand::Nothing }) && after == before
        }
    } else if m.tag == AppControlTag::Key.spec_code() && m.word_count >= 2 {
        if m.words[0] as u32 == AppKeyAction::Down.spec_code() {
            out matches ControlStep::Continue { changed, command } && key_step(before, m.words[1] as u32, after, (changed, command))
        } else {
            out == (ControlStep::Continue { changed: false, command: SettingsCommand::Nothing }) && after == before
        }
    } else if m.tag == AppControlTag::Text.spec_code() && m.word_count > 0 {
        out matches ControlStep::Continue { changed, command } && command == SettingsCommand::Nothing
            && text_step(before, m.words[0], after, changed)
    } else if m.tag == AppControlTag::Close.spec_code() {
        out == ControlStep::Exit && after == before
    } else {
        out == (ControlStep::Continue { changed: false, command: SettingsCommand::Nothing }) && after == before
    }
}

/// Handles one app-control message (see `control_rel`).
pub fn control_step(state: &mut AppState, message: &RawMessage) -> (out: ControlStep)
    requires
        old(state).wf(),
    ensures
        final(state).wf(),
        control_rel(*old(state), *message, *final(state), out),
{
    let tag = message.tag;
    if tag == AppControlTag::FocusChanged.code() && message.word_count > 0 {
        state.focused = message.words[0] != 0;
        return ControlStep::Continue { changed: true, command: SettingsCommand::Nothing };
    }
    if tag == AppControlTag::Resize.code() && message.word_count >= 2 {
        state.width = message.words[0] as u32;
        state.height = message.words[1] as u32;
        return ControlStep::Continue { changed: true, command: SettingsCommand::Nothing };
    }
    if tag == AppControlTag::Pointer.code() && message.word_count >= 4 {
        if let Some(AppPointerAction::Down) = app_pointer_action_from_word(message.words[0]) {
            let (changed, command) = handle_pointer_down(state, message.words[1] as i32, message.words[2] as i32);
            return ControlStep::Continue { changed, command };
        }
        return ControlStep::Continue { changed: false, command: SettingsCommand::Nothing };
    }
    if tag == AppControlTag::Key.code() && message.word_count >= 2 {
        if let Some(AppKeyAction::Down) = app_key_action_from_word(message.words[0]) {
            let (changed, command) = handle_key_down(state, message.words[1] as u32);
            return ControlStep::Continue { changed, command };
        }
        return ControlStep::Continue { changed: false, command: SettingsCommand::Nothing };
    }
    if tag == AppControlTag::Text.code() && message.word_count > 0 {
        let changed = append_text_input(state, message.words[0]);
        return ControlStep::Continue { changed, command: SettingsCommand::Nothing };
    }
    if tag == AppControlTag::Close.code() {
        return ControlStep::Exit;
    }
    ControlStep::Continue { changed: false, command: SettingsCommand::Nothing }
}


/// A row list of `count` rows, each `pitch` high, starting at `y0`: a
/// click between the row columns and inside the band of row `k`
/// (`y0 + k * pitch <= y < y0 + (k + 1) * pitch`, `k < count`) hits exactly
/// row `k`, and a hit on row `k` lies in that band.
pub proof fn lemma_row_hit_band(x: i32, y: i32, y0: i32, pitch: i32, count: usize, k: usize)
    requires
        pitch > 0,
    ensures
        (WIFI_ROW_X0 <= x < WIFI_ROW_X1 && y0 + k * pitch <= y < y0 + (k + 1) * pitch && k < count)
            ==> row_hit(x, y, y0, pitch, count) == Some(k),
        row_hit(x, y, y0, pitch, count) == Some(k)
            ==> WIFI_ROW_X0 <= x < WIFI_ROW_X1 && y0 + k * pitch <= y < y0 + (k + 1) * pitch && k < count,
        (y < y0 || y >= y0 + count * pitch) ==> row_hit(x, y, y0, pitch, count) is None,
{
    let d = y - y0;
    let p = pitch as int;
    if k * p <= d < (k + 1) * p {
        assert(d / p == k) by (nonlinear_arith)
            requires
                k * p <= d < (k + 1) * p,
                p > 0,
        ;
    }
    if d >= 0 {
        assert(d / p * p <= d < (d / p + 1) * p) by (nonlinear_arith)
            requires
                d >= 0,
                p > 0,
        ;
    }
    if d >= count * p && d >= 0 {
        assert(d / p >= count) by (nonlinear_arith)
            requires
                d >= count * p,
                p > 0,
                count >= 0,
        ;
    }
}

/// On the wireless page with no prompt open, a click between the row
/// columns in the band of scan row `k` (`k` below the number of rows shown)
/// selects that network and changes nothing else.
pub proof fn lemma_wifi_click_selects_scan_row(before: AppState, x: i32, y: i32, after: AppState, r: (bool, SettingsCommand), k: usize)
    requires
        before.page == SettingsPage::Wifi,
        before.wifi.prompt is None,
        WIFI_ROW_X0 <= x < WIFI_ROW_X1,
        WIFI_SCAN_ROW_Y0 + k * WIFI_ROW_H <= y < WIFI_SCAN_ROW_Y0 + (k + 1) * WIFI_ROW_H,
        k < before.wifi.scan_count,
        pointer_step(before, x, y, after, r),
    ensures
        after == (AppState { wifi: WifiUiState { selected_scan: k, ..before.wifi }, ..before }),
        r.0 && r.1 == SettingsCommand::Nothing,
{
    lemma_row_hit_band(x, y, WIFI_SCAN_ROW_Y0, WIFI_ROW_H, before.wifi.scan_count, k);
}

} // verus!
