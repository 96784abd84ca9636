//! The settings app's wireless page: its state, the text it shows, the
//! modal prompt that collects a key or a saved network, and what each
//! wireless call's outcome does to the page.
use vstd::prelude::*;
use vstd::string::StringSliceAdditionalSpecFns;
use vstd::utf8::valid_utf8;

use crate::abi::{WifiLinkState, WifiSecurity};
use crate::error::{Error, Result};
use crate::abi::NetworkTag;
use crate::backup::zeros;
use crate::message::{is_request, RawMessage};
use crate::network::{
    counted_bytes_words, join_refused, join_words, link_result, network_check, network_result, network_wifi_join_parse_reply,
    network_wifi_join_request, network_wifi_saved_add_request, network_wifi_saved_remove_request, saved_add_refused,
    saved_add_words, ssid_refused,
};
use crate::settings::{decimal, digits_value, is_digit, parse_priority, push_decimal};
use crate::text::{pad_left, pad_right, push_bytes, push_spaces, str_from_utf8};
use crate::types::{NetworkWifiSavedNetwork, NetworkWifiScanEntry};

verus! {

/// Scan rows the page keeps (one scan reply's worth).
pub const WIFI_SCAN_ROWS: usize = 2;
/// Saved-network rows the page keeps (one saved-list reply's worth).
pub const WIFI_SAVED_ROWS: usize = 2;
/// Longest SSID the page stores.
pub const WIFI_SSID_MAX_BYTES: usize = 32;
/// Longest key the page stores.
pub const WIFI_PSK_MAX_BYTES: usize = 64;
/// Room of the prompt's edit buffer.
pub const WIFI_EDIT_MAX_BYTES: usize = 64;
/// Digits the priority stage accepts.
pub const WIFI_PRIORITY_MAX_DIGITS: usize = 3;

/// The stage of the page's modal prompt: the key of a secured network
/// being joined, or one of the three stages of adding a saved network.
#[derive(Clone, Copy, Debug, PartialEq, Eq, Structural)]
pub enum WifiPrompt {
    JoinPsk,
    SavedSsid,
    SavedPsk,
    SavedPriority,
}

/// How a failed wireless call is shown.
#[derive(Clone, Copy, Debug, PartialEq, Eq, Structural)]
pub enum WifiOpError {
    Unsupported,
    Invalid,
    Rejected,
    Transport,
}

/// The class a call's error is shown as.
pub open spec fn classify_of(error: Error) -> WifiOpError {
    match error {
        Error::Unsupported => WifiOpError::Unsupported,
        Error::InvalidArgument | Error::BufferTooSmall => WifiOpError::Invalid,
        Error::NotFound | Error::Busy | Error::CapacityExceeded => WifiOpError::Rejected,
        _ => WifiOpError::Transport,
    }
}

/// Classifies a failed wireless call: `Unsupported` (the answer while no
/// wireless device is registered), a refused argument, a refusal by the
/// service, or anything else as the transport.
pub fn classify(error: Error) -> (c: WifiOpError)
    ensures
        c == classify_of(error),
{
    match error {
        Error::Unsupported => WifiOpError::Unsupported,
        Error::InvalidArgument | Error::BufferTooSmall => WifiOpError::Invalid,
        Error::NotFound | Error::Busy | Error::CapacityExceeded => WifiOpError::Rejected,
        _ => WifiOpError::Transport,
    }
}

/// A call's outcome with its error classified.
pub open spec fn classified<T>(r: Result<T>) -> core::result::Result<T, WifiOpError> {
    match r {
        Ok(v) => Ok(v),
        Err(e) => Err(classify_of(e)),
    }
}

pub open spec fn link_state_text(state: WifiLinkState) -> &'static str {
    match state {
        WifiLinkState::Down => "DOWN",
        WifiLinkState::Scanning => "SCAN",
        WifiLinkState::Authenticating => "AUTH",
        WifiLinkState::Associating => "ASSOC",
        WifiLinkState::Connected => "UP",
    }
}

/// The name the page shows for a link state.
pub fn link_state_name(state: WifiLinkState) -> (t: &'static str)
    ensures
        t == link_state_text(state),
{
    match state {
        WifiLinkState::Down => "DOWN",
        WifiLinkState::Scanning => "SCAN",
        WifiLinkState::Authenticating => "AUTH",
        WifiLinkState::Associating => "ASSOC",
        WifiLinkState::Connected => "UP",
    }
}

pub open spec fn security_text(security: WifiSecurity) -> &'static str {
    match security {
        WifiSecurity::Open => "OPN",
        WifiSecurity::Wpa2 => "WPA2",
        WifiSecurity::Wpa3 => "WPA3",
        WifiSecurity::Unknown => "SEC?",
    }
}

/// The marker a scan row shows for a network's security; an unknown
/// protection is shown as such, never as open.
pub fn security_tag(security: WifiSecurity) -> (t: &'static str)
    ensures
        t == security_text(security),
{
    match security {
        WifiSecurity::Open => "OPN",
        WifiSecurity::Wpa2 => "WPA2",
        WifiSecurity::Wpa3 => "WPA3",
        WifiSecurity::Unknown => "SEC?",
    }
}

/// Only an open network is joined without asking for a key.
pub fn join_needs_psk(security: WifiSecurity) -> (b: bool)
    ensures
        b == (security != WifiSecurity::Open),
{
    !matches!(security, WifiSecurity::Open)
}

pub open spec fn prompt_text(prompt: WifiPrompt) -> &'static str {
    match prompt {
        WifiPrompt::JoinPsk => "JOIN PSK:",
        WifiPrompt::SavedSsid => "SAVED SSID:",
        WifiPrompt::SavedPsk => "SAVED PSK:",
        WifiPrompt::SavedPriority => "SAVED PRIORITY:",
    }
}

/// The title of a prompt stage.
pub fn prompt_title(prompt: WifiPrompt) -> (t: &'static str)
    ensures
        t == prompt_text(prompt),
{
    match prompt {
        WifiPrompt::JoinPsk => "JOIN PSK:",
        WifiPrompt::SavedSsid => "SAVED SSID:",
        WifiPrompt::SavedPsk => "SAVED PSK:",
        WifiPrompt::SavedPriority => "SAVED PRIORITY:",
    }
}

pub open spec fn error_text(error: WifiOpError) -> &'static str {
    match error {
        WifiOpError::Unsupported => "UNSUPPORTED",
        WifiOpError::Invalid => "INVALID",
        WifiOpError::Rejected => "REFUSED",
        WifiOpError::Transport => "UNAVAILABLE",
    }
}

/// The name the page shows for a failure class.
pub fn error_name(error: WifiOpError) -> (t: &'static str)
    ensures
        t == error_text(error),
{
    match error {
        WifiOpError::Unsupported => "UNSUPPORTED",
        WifiOpError::Invalid => "INVALID",
        WifiOpError::Rejected => "REFUSED",
        WifiOpError::Transport => "UNAVAILABLE",
    }
}

/// The stored bytes of an SSID of length `len` (at most 32 are stored).
pub open spec fn ssid_prefix(ssid: Seq<u8>, len: usize) -> Seq<u8> {
    ssid.subrange(0, if len < 32 { len as int } else { 32 })
}

/// The bytes an SSID is shown as: its stored bytes when they are UTF-8,
/// else a question mark.
pub open spec fn ssid_shown(ssid: Seq<u8>, len: usize) -> Seq<u8> {
    if valid_utf8(ssid_prefix(ssid, len)) { ssid_prefix(ssid, len) } else { "?".spec_bytes() }
}

/// The text of a stored SSID: its first `len` bytes (at most 32) when they
/// are UTF-8, else "?".
pub fn ssid_str(ssid: &[u8; 32], len: usize) -> (s: &str)
    ensures
        s.spec_bytes() == ssid_shown(ssid@, len),
        !valid_utf8(ssid_prefix(ssid@, len)) ==> s == "?",
{
    let n: usize = if len < 32 { len } else { 32 };
    let (head, _) = ssid.as_slice().split_at(n);
    match str_from_utf8(head) {
        Some(s) => s,
        None => "?",
    }
}

/// The decimal text of a signed value, with a leading minus when negative.
pub open spec fn signed_decimal(v: int) -> Seq<u8> {
    if v < 0 { seq![45u8] + decimal((-v) as nat) } else { decimal(v as nat) }
}

/// The bytes "DBM ".
pub open spec fn dbm_bytes() -> Seq<u8> {
    seq![68u8, 66u8, 77u8, 32u8]
}

/// The text of a scan row: the channel right-aligned in two columns, the
/// signal in dBm right-aligned in four, the security marker left-aligned
/// in four, then the SSID.
pub open spec fn scan_row(e: NetworkWifiScanEntry) -> Seq<u8> {
    pad_left(decimal(e.channel as nat), 2) + seq![32u8] + pad_left(signed_decimal(e.rssi as int), 4) + dbm_bytes()
        + pad_right(security_text(e.security).spec_bytes(), 4) + seq![32u8] + ssid_shown(e.ssid@, e.ssid_len)
}

fn push_padded_left(out: &mut Vec<u8>, s: &Vec<u8>, width: usize)
    ensures
        final(out)@ == old(out)@ + pad_left(s@, width as nat),
{
    if s.len() < width {
        push_spaces(out, width - s.len());
    }
    push_bytes(out, s.as_slice());
    assert(final(out)@ =~= old(out)@ + pad_left(s@, width as nat));
}

fn push_padded_right(out: &mut Vec<u8>, s: &[u8], width: usize)
    ensures
        final(out)@ == old(out)@ + pad_right(s@, width as nat),
{
    push_bytes(out, s);
    if s.len() < width {
        push_spaces(out, width - s.len());
    }
    assert(final(out)@ =~= old(out)@ + pad_right(s@, width as nat));
}

fn signed_text(v: i8) -> (t: Vec<u8>)
    ensures
        t@ == signed_decimal(v as int),
{
    let mut t: Vec<u8> = Vec::new();
    if v < 0 {
        t.push(45);
        let magnitude: u64 = (0i64 - v as i64) as u64;
        push_decimal(&mut t, magnitude);
    } else {
        push_decimal(&mut t, v as u64);
    }
    assert(t@ =~= signed_decimal(v as int));
    t
}

/// The text of a scan row (see `scan_row`).
pub fn scan_row_text(entry: &NetworkWifiScanEntry) -> (t: Vec<u8>)
    ensures
        t@ == scan_row(*entry),
{
    let mut channel: Vec<u8> = Vec::new();
    push_decimal(&mut channel, entry.channel as u64);
    assert(channel@ =~= decimal(entry.channel as nat));
    let rssi = signed_text(entry.rssi);
    let mut t: Vec<u8> = Vec::new();
    push_padded_left(&mut t, &channel, 2);
    t.push(32);
    push_padded_left(&mut t, &rssi, 4);
    let ghost front = t@;
    t.push(68);
    t.push(66);
    t.push(77);
    t.push(32);
    assert(t@ =~= front + dbm_bytes());
    let ghost middle = t@;
    push_padded_right(&mut t, security_tag(entry.security).as_bytes(), 4);
    t.push(32);
    let ghost tail = t@;
    push_bytes(&mut t, ssid_str(&entry.ssid, entry.ssid_len).as_bytes());
    assert(t@ =~= tail + ssid_shown(entry.ssid@, entry.ssid_len));
    assert(t@ =~= scan_row(*entry));
    t
}

/// The text of a saved-network row: its SSID, then "P" and its priority.
pub open spec fn saved_row(r: NetworkWifiSavedNetwork) -> Seq<u8> {
    ssid_shown(r.ssid@, r.ssid_len) + seq![32u8, 80u8] + decimal(r.priority as nat)
}

/// The text of a saved-network row (see `saved_row`).
pub fn saved_row_text(record: &NetworkWifiSavedNetwork) -> (t: Vec<u8>)
    ensures
        t@ == saved_row(*record),
{
    let mut t: Vec<u8> = Vec::new();
    push_bytes(&mut t, ssid_str(&record.ssid, record.ssid_len).as_bytes());
    t.push(32);
    t.push(80);
    push_decimal(&mut t, record.priority as u64);
    assert(t@ =~= saved_row(*record));
    t
}

/// The footer line of a join: "JOIN OK" and the link state, or
/// "JOIN FAILED" and the failure.
pub open spec fn join_outcome_line(outcome: core::result::Result<WifiLinkState, WifiOpError>) -> Seq<u8> {
    match outcome {
        Ok(state) => "JOIN OK ".spec_bytes() + link_state_text(state).spec_bytes(),
        Err(error) => "JOIN FAILED ".spec_bytes() + error_text(error).spec_bytes(),
    }
}

/// The footer line of a join (see `join_outcome_line`).
pub fn join_outcome_text(outcome: &core::result::Result<WifiLinkState, WifiOpError>) -> (t: Vec<u8>)
    ensures
        t@ == join_outcome_line(*outcome),
{
    let mut t: Vec<u8> = Vec::new();
    match outcome {
        Ok(state) => {
            push_bytes(&mut t, "JOIN OK ".as_bytes());
            push_bytes(&mut t, link_state_name(*state).as_bytes());
        },
        Err(error) => {
            push_bytes(&mut t, "JOIN FAILED ".as_bytes());
            push_bytes(&mut t, error_name(*error).as_bytes());
        },
    }
    t
}

/// The footer line of the saved-network calls: the add's outcome when
/// there is one, else the remove's, else none.
pub open spec fn saved_outcome_line(add: Option<core::result::Result<(), WifiOpError>>, remove: Option<core::result::Result<(), WifiOpError>>) -> Option<Seq<u8>> {
    match add {
        Some(Ok(())) => Some("SAVED ADD OK".spec_bytes()),
        Some(Err(e)) => Some("SAVED ADD FAILED ".spec_bytes() + error_text(e).spec_bytes()),
        None => match remove {
            Some(Ok(())) => Some("SAVED REMOVE OK".spec_bytes()),
            Some(Err(e)) => Some("SAVED REMOVE FAILED ".spec_bytes() + error_text(e).spec_bytes()),
            None => None,
        },
    }
}

/// The footer line of the saved-network calls (see `saved_outcome_line`).
pub fn saved_outcome_text(add: Option<core::result::Result<(), WifiOpError>>, remove: Option<core::result::Result<(), WifiOpError>>) -> (t: Option<Vec<u8>>)
    ensures
        t is Some == saved_outcome_line(add, remove) is Some,
        t matches Some(v) ==> saved_outcome_line(add, remove) == Some(v@),
{
    let mut t: Vec<u8> = Vec::new();
    match add {
        Some(Ok(())) => {
            push_bytes(&mut t, "SAVED ADD OK".as_bytes());
            Some(t)
        },
        Some(Err(e)) => {
            push_bytes(&mut t, "SAVED ADD FAILED ".as_bytes());
            push_bytes(&mut t, error_name(e).as_bytes());
            Some(t)
        },
        None => match remove {
            Some(Ok(())) => {
                push_bytes(&mut t, "SAVED REMOVE OK".as_bytes());
                Some(t)
            },
            Some(Err(e)) => {
                push_bytes(&mut t, "SAVED REMOVE FAILED ".as_bytes());
                push_bytes(&mut t, error_name(e).as_bytes());
                Some(t)
            },
            None => None,
        },
    }
}

/// The first hint line: no device when the status call is unsupported or
/// nothing is known, unavailable when it failed otherwise, else what the
/// link state asks of the user.
pub open spec fn first_hint(link_state: Option<WifiLinkState>, status_error: Option<WifiOpError>) -> &'static str {
    match status_error {
        Some(WifiOpError::Unsupported) => "HINT: NO WIRELESS DEVICE",
        Some(_) => "HINT: STATUS UNAVAILABLE",
        None => match link_state {
            None => "HINT: NO WIRELESS DEVICE",
            Some(WifiLinkState::Down) => "HINT: LINK DOWN - CHECK DEVICE",
            Some(WifiLinkState::Scanning) => "HINT: SCANNING - WAIT",
            Some(WifiLinkState::Authenticating) => "HINT: AUTH IN PROGRESS - WAIT",
            Some(WifiLinkState::Associating) => "HINT: AUTH IN PROGRESS - WAIT",
            Some(WifiLinkState::Connected) => "HINT: LINK UP",
        },
    }
}

/// The three troubleshooting lines of the page: the state hint; a key or
/// signal hint after a failed join; a device hint after an unsupported
/// scan. An empty line shows nothing.
pub fn hint_lines(
    link_state: Option<WifiLinkState>,
    status_error: Option<WifiOpError>,
    join_error: Option<WifiOpError>,
    scan_error: Option<WifiOpError>,
) -> (h: [&'static str; 3])
    ensures
        h@[0] == first_hint(link_state, status_error),
        h@[1] == (if join_error is Some { "HINT: RECHECK PSK OR SIGNAL" } else { "" }),
        h@[2] == (if scan_error == Some(WifiOpError::Unsupported) { "HINT: SCAN NEEDS A DEVICE" } else { "" }),
{
    let first = match status_error {
        Some(WifiOpError::Unsupported) => "HINT: NO WIRELESS DEVICE",
        Some(_) => "HINT: STATUS UNAVAILABLE",
        None => match link_state {
            None => "HINT: NO WIRELESS DEVICE",
            Some(WifiLinkState::Down) => "HINT: LINK DOWN - CHECK DEVICE",
            Some(WifiLinkState::Scanning) => "HINT: SCANNING - WAIT",
            Some(WifiLinkState::Authenticating) => "HINT: AUTH IN PROGRESS - WAIT",
            Some(WifiLinkState::Associating) => "HINT: AUTH IN PROGRESS - WAIT",
            Some(WifiLinkState::Connected) => "HINT: LINK UP",
        },
    };
    let second = if join_error.is_some() { "HINT: RECHECK PSK OR SIGNAL" } else { "" };
    let third = match scan_error {
        Some(WifiOpError::Unsupported) => "HINT: SCAN NEEDS A DEVICE",
        _ => "",
    };
    [first, second, third]
}

/// The page's state: the last scan and saved list, the selections, the
/// outcomes of the last calls, and the modal prompt with what the
/// saved-network stages collected so far.
#[derive(Clone, Copy, Debug)]
pub struct WifiUiState {
    pub scans: [NetworkWifiScanEntry; 2],
    pub scan_count: usize,
    pub scan_total: usize,
    pub scan_error: Option<WifiOpError>,
    pub selected_scan: usize,
    pub join_outcome: Option<core::result::Result<WifiLinkState, WifiOpError>>,
    pub saved: [NetworkWifiSavedNetwork; 2],
    pub saved_count: usize,
    pub saved_total: usize,
    pub saved_add_outcome: Option<core::result::Result<(), WifiOpError>>,
    pub saved_remove_outcome: Option<core::result::Result<(), WifiOpError>>,
    pub selected_saved: usize,
    pub prompt: Option<WifiPrompt>,
    pub prompt_edit: [u8; 64],
    pub prompt_len: usize,
    pub add_ssid: [u8; 32],
    pub add_ssid_len: usize,
    pub add_psk: [u8; 64],
    pub add_psk_len: usize,
}

/// A wireless call the page asks for; its reply goes to `finish_join`,
/// `finish_saved_add` or `finish_saved_remove`.
#[derive(Debug)]
pub enum WifiCall {
    Join(RawMessage),
    SavedAdd(RawMessage),
    SavedRemove(RawMessage),
}

/// The limit a prompt stage puts on the typed length.
pub open spec fn stage_max(p: WifiPrompt) -> nat {
    match p {
        WifiPrompt::JoinPsk => 64,
        WifiPrompt::SavedPsk => 64,
        WifiPrompt::SavedSsid => 32,
        WifiPrompt::SavedPriority => 3,
    }
}

/// The characters a prompt stage takes: digits for the priority; visible
/// ASCII and the space otherwise.
pub open spec fn stage_accepts(p: WifiPrompt, ch: char) -> bool {
    match p {
        WifiPrompt::SavedPriority => '0' <= ch <= '9',
        _ => ('!' <= ch <= '~') || ch == ' ',
    }
}

/// Bytes as text: themselves when UTF-8, else nothing.
pub open spec fn text_or_empty(b: Seq<u8>) -> Seq<u8> {
    if valid_utf8(b) { b } else { Seq::empty() }
}

/// The priority a typed string gives: zero for nothing typed, the digits'
/// value when all are digits and it fits a byte, else none.
pub open spec fn priority_of(s: Seq<u8>) -> Option<u8> {
    if s.len() == 0 {
        Some(0u8)
    } else if (forall|i: int| 0 <= i < s.len() ==> is_digit(#[trigger] s[i])) && digits_value(s) <= 255 {
        Some(digits_value(s) as u8)
    } else {
        None
    }
}

/// `after` is `before` with the prompt closed and every half-typed byte
/// discarded.
pub open spec fn editing_stopped(before: WifiUiState, after: WifiUiState) -> bool {
    &&& after.prompt_edit@ == zeros(64)
    &&& after.add_ssid@ == zeros(32)
    &&& after.add_psk@ == zeros(64)
    &&& after == (WifiUiState {
        prompt: None,
        prompt_len: 0,
        prompt_edit: after.prompt_edit,
        add_ssid_len: 0,
        add_ssid: after.add_ssid,
        add_psk_len: 0,
        add_psk: after.add_psk,
        ..before
    })
}

/// `after` is `before` with the prompt opened at stage `p`, empty.
pub open spec fn prompt_opened(before: WifiUiState, after: WifiUiState, p: WifiPrompt) -> bool {
    &&& after.prompt_edit@ == zeros(64)
    &&& after == (WifiUiState { prompt: Some(p), prompt_len: 0, prompt_edit: after.prompt_edit, ..before })
}

/// The bytes typed in the prompt.
pub open spec fn typed(s: WifiUiState) -> Seq<u8> {
    s.prompt_edit@.subrange(0, s.prompt_len as int)
}

/// The SSID a scan row is joined with.
pub open spec fn join_ssid(e: NetworkWifiScanEntry) -> Seq<u8> {
    ssid_shown(e.ssid@, e.ssid_len)
}

fn empty_scan() -> (e: NetworkWifiScanEntry)
    ensures
        e.ssid_len == 0,
        e.ssid@ == zeros(32),
{
    NetworkWifiScanEntry { bssid: [0u8; 6], channel: 0, rssi: 0, ssid_len: 0, ssid: [0u8; 32], security: WifiSecurity::Unknown }
}

fn empty_saved() -> (r: NetworkWifiSavedNetwork)
    ensures
        r.ssid_len == 0,
        r.ssid@ == zeros(32),
{
    NetworkWifiSavedNetwork { ssid_len: 0, ssid: [0u8; 32], priority: 0 }
}

/// The prefix `src[..len]` followed by zeros, as an array of 32 bytes.
fn prefix32(src: &[u8; 64], len: usize) -> (a: [u8; 32])
    requires
        len <= 32,
    ensures
        a@ == src@.subrange(0, len as int) + zeros((32 - len) as nat),
{
    let mut a = [0u8; 32];
    let mut i: usize = 0;
    while i < len
        invariant
            len <= 32,
            i <= len,
            forall|k: int| 0 <= k < i ==> a@[k] == src@[k],
            forall|k: int| i <= k < 32 ==> a@[k] == 0u8,
        decreases len - i,
    {
        a[i] = src[i];
        i = i + 1;
    }
    assert(a@ =~= src@.subrange(0, len as int) + zeros((32 - len) as nat));
    a
}

/// The prefix `src[..len]` followed by zeros, as an array of 64 bytes.
fn prefix64(src: &[u8; 64], len: usize) -> (a: [u8; 64])
    requires
        len <= 64,
    ensures
        a@ == src@.subrange(0, len as int) + zeros((64 - len) as nat),
{
    let mut a = [0u8; 64];
    let mut i: usize = 0;
    while i < len
        invariant
            len <= 64,
            i <= len,
            forall|k: int| 0 <= k < i ==> a@[k] == src@[k],
            forall|k: int| i <= k < 64 ==> a@[k] == 0u8,
        decreases len - i,
    {
        a[i] = src[i];
        i = i + 1;
    }
    assert(a@ =~= src@.subrange(0, len as int) + zeros((64 - len) as nat));
    a
}

fn text_of(b: &[u8]) -> (s: &str)
    ensures
        s.spec_bytes() == text_or_empty(b@),
{
    match str_from_utf8(b) {
        Some(s) => s,
        None => {
            let e = "";
            proof {
                reveal_strlit("");
            }
            e
        },
    }
}

/// An empty page: no rows, no outcomes, no prompt, nothing typed.
pub open spec fn fresh_wifi(s: WifiUiState) -> bool {
    &&& s.scan_count == 0 && s.scan_total == 0 && s.scan_error is None && s.selected_scan == 0
    &&& s.saved_count == 0 && s.saved_total == 0 && s.selected_saved == 0
    &&& s.join_outcome is None && s.saved_add_outcome is None && s.saved_remove_outcome is None
    &&& s.prompt is None && s.prompt_len == 0 && s.prompt_edit@ == zeros(64)
    &&& s.add_ssid_len == 0 && s.add_ssid@ == zeros(32) && s.add_psk_len == 0 && s.add_psk@ == zeros(64)
    &&& forall|i: int| 0 <= i < 2 ==> s.scans@[i].ssid_len == 0 && s.saved@[i].ssid_len == 0
}

impl WifiUiState {
    /// The bounds the page keeps: counts and selections within the rows,
    /// the typed length within the edit buffer and within its stage's
    /// limit, the collected SSID and key within their buffers.
    pub open spec fn wf(&self) -> bool {
        &&& self.scan_count <= 2
        &&& self.saved_count <= 2
        &&& self.selected_scan < 2
        &&& self.selected_saved < 2
        &&& self.prompt_len <= 64
        &&& self.add_ssid_len <= 32
        &&& self.add_psk_len <= 64
        &&& (self.prompt matches Some(p) ==> self.prompt_len <= stage_max(p))
    }

    /// An empty page: no rows, no outcomes, no prompt.
    pub fn new() -> (s: Self)
        ensures
            s.wf(),
            fresh_wifi(s),
    {
        let s = WifiUiState {
            scans: [empty_scan(), empty_scan()],
            scan_count: 0,
            scan_total: 0,
            scan_error: None,
            selected_scan: 0,
            join_outcome: None,
            saved: [empty_saved(), empty_saved()],
            saved_count: 0,
            saved_total: 0,
            saved_add_outcome: None,
            saved_remove_outcome: None,
            selected_saved: 0,
            prompt: None,
            prompt_edit: [0u8; 64],
            prompt_len: 0,
            add_ssid: [0u8; 32],
            add_ssid_len: 0,
            add_psk: [0u8; 64],
            add_psk_len: 0,
        };
        assert(s.prompt_edit@ =~= zeros(64));
        assert(s.add_ssid@ =~= zeros(32));
        assert(s.add_psk@ =~= zeros(64));
        s
    }

    /// Closes the prompt and discards any half-typed stage data.
    pub fn stop_editing(&mut self)
        ensures
            editing_stopped(*old(self), *final(self)),
    {
        self.prompt = None;
        self.prompt_len = 0;
        self.prompt_edit = [0u8; 64];
        self.add_ssid_len = 0;
        self.add_ssid = [0u8; 32];
        self.add_psk_len = 0;
        self.add_psk = [0u8; 64];
        assert(self.prompt_edit@ =~= zeros(64));
        assert(self.add_ssid@ =~= zeros(32));
        assert(self.add_psk@ =~= zeros(64));
    }

    /// Opens the prompt at stage `p`, empty.
    pub fn open_prompt(&mut self, p: WifiPrompt)
        ensures
            prompt_opened(*old(self), *final(self), p),
    {
        self.prompt_len = 0;
        self.prompt_edit = [0u8; 64];
        self.prompt = Some(p);
        assert(self.prompt_edit@ =~= zeros(64));
    }
}

/// What typing `ch` does to the prompt (see `wifi_prompt_char`).
pub open spec fn prompt_char_step(before: WifiUiState, ch: char, after: WifiUiState, changed: bool) -> bool {
    &&& changed == (before.prompt matches Some(p) && stage_accepts(p, ch) && before.prompt_len < stage_max(p))
    &&& !changed ==> after == before
    &&& changed ==> after.prompt_edit@ == before.prompt_edit@.update(before.prompt_len as int, ch as u8)
        && after == (WifiUiState { prompt_edit: after.prompt_edit, prompt_len: (before.prompt_len + 1) as usize, ..before })
}

/// Types one character into the open prompt: taken (`true`) when the
/// stage accepts it and its limit is not reached; otherwise nothing
/// changes, and nothing is taken without a prompt.
pub fn wifi_prompt_char(state: &mut WifiUiState, ch: char) -> (changed: bool)
    requires
        old(state).wf(),
    ensures
        final(state).wf(),
        prompt_char_step(*old(state), ch, *final(state), changed),
{
    let prompt = match state.prompt {
        Some(p) => p,
        None => return false,
    };
    let (max_bytes, digits_only): (usize, bool) = match prompt {
        WifiPrompt::JoinPsk | WifiPrompt::SavedPsk => (64, false),
        WifiPrompt::SavedSsid => (32, false),
        WifiPrompt::SavedPriority => (3, true),
    };
    let allowed = if digits_only { '0' <= ch && ch <= '9' } else { ('!' <= ch && ch <= '~') || ch == ' ' };
    if !allowed {
        return false;
    }
    if state.prompt_len >= max_bytes {
        return false;
    }
    let at = state.prompt_len;
    state.prompt_edit[at] = ch as u8;
    state.prompt_len = at + 1;
    true
}

/// What a backspace does to the prompt (see `wifi_prompt_backspace`).
pub open spec fn prompt_backspace_step(before: WifiUiState, after: WifiUiState, changed: bool) -> bool {
    &&& changed == (before.prompt is Some && before.prompt_len > 0)
    &&& !changed ==> after == before
    &&& changed ==> after == (WifiUiState { prompt_len: (before.prompt_len - 1) as usize, ..before })
}

/// Erases the last typed byte of the open prompt; nothing without a prompt
/// or with nothing typed.
pub fn wifi_prompt_backspace(state: &mut WifiUiState) -> (changed: bool)
    requires
        old(state).wf(),
    ensures
        final(state).wf(),
        prompt_backspace_step(*old(state), *final(state), changed),
{
    if state.prompt.is_none() || state.prompt_len == 0 {
        return false;
    }
    state.prompt_len = state.prompt_len - 1;
    true
}

/// What the join button does (see `begin_join`).
pub open spec fn join_begun(before: WifiUiState, after: WifiUiState, r: (bool, Option<WifiCall>)) -> bool {
    &&& before.selected_scan >= before.scan_count ==> !r.0 && r.1 is None && after == before
    &&& before.selected_scan < before.scan_count ==> r.0 && {
        let e = before.scans@[before.selected_scan as int];
        if e.security != WifiSecurity::Open {
            r.1 is None && prompt_opened(before, after, WifiPrompt::JoinPsk)
        } else if join_refused(join_ssid(e), Seq::empty()) {
            r.1 is None && after == (WifiUiState { join_outcome: Some(Err(WifiOpError::Invalid)), ..before })
        } else {
            after == before && (r.1 matches Some(WifiCall::Join(m))
                && is_request(m, NetworkTag::WifiJoinRequest.spec_code(), join_words(join_ssid(e), Seq::empty())))
        }
    }
}

/// Join of the selected scan row. Without a selected row nothing happens
/// (`false`). A secured row opens the key prompt; an open row is joined at
/// once: the join request to send, or, when its SSID is refused, the
/// refusal recorded as the outcome.
pub fn begin_join(state: &mut WifiUiState) -> (r: (bool, Option<WifiCall>))
    requires
        old(state).wf(),
    ensures
        final(state).wf(),
        join_begun(*old(state), *final(state), r),
{
    if state.selected_scan >= state.scan_count {
        return (false, None);
    }
    let entry = state.scans[state.selected_scan];
    if join_needs_psk(entry.security) {
        state.open_prompt(WifiPrompt::JoinPsk);
        return (true, None);
    }
    let ssid = ssid_str(&entry.ssid, entry.ssid_len);
    match network_wifi_join_request(ssid, None) {
        Ok(m) => (true, Some(WifiCall::Join(m))),
        Err(e) => {
            state.join_outcome = Some(Err(classify(e)));
            (true, None)
        },
    }
}

/// What the key prompt's enter does: the prompt closes; the selected row
/// is joined with the typed key (no key when it is not UTF-8): the join
/// request in `call`, or, when the SSID or key is refused, the refusal
/// recorded as the outcome.
pub open spec fn join_psk_entered(before: WifiUiState, after: WifiUiState, call: Option<WifiCall>) -> bool {
    let e = before.scans@[before.selected_scan as int];
    let key = text_or_empty(typed(before));
    &&& editing_stopped(before, WifiUiState { join_outcome: before.join_outcome, ..after })
    &&& if join_refused(join_ssid(e), key) {
        call is None && after.join_outcome == Some(Err::<WifiLinkState, WifiOpError>(WifiOpError::Invalid))
    } else {
        after.join_outcome == before.join_outcome && (call matches Some(WifiCall::Join(m))
            && is_request(m, NetworkTag::WifiJoinRequest.spec_code(), join_words(join_ssid(e), key)))
    }
}

/// What enter does in the SSID stage with something typed: the SSID is
/// kept and the key stage opens, empty.
pub open spec fn ssid_entered(before: WifiUiState, after: WifiUiState) -> bool {
    &&& after.add_ssid@ == typed(before) + zeros((32 - before.prompt_len) as nat)
    &&& prompt_opened(WifiUiState { add_ssid_len: before.prompt_len, add_ssid: after.add_ssid, ..before }, after, WifiPrompt::SavedPsk)
}

/// What enter does in the key stage with something typed: the key is kept
/// and the priority stage opens, empty.
pub open spec fn psk_entered(before: WifiUiState, after: WifiUiState) -> bool {
    &&& after.add_psk@ == typed(before) + zeros((64 - before.prompt_len) as nat)
    &&& prompt_opened(WifiUiState { add_psk_len: before.prompt_len, add_psk: after.add_psk, ..before }, after, WifiPrompt::SavedPriority)
}

/// What enter does in the priority stage with a valid priority `v`: the
/// prompt closes and the collected network is saved at `v`: the add
/// request in `call`, or, when the SSID or key is refused, the refusal
/// recorded as the outcome.
pub open spec fn priority_entered(before: WifiUiState, after: WifiUiState, v: u8, call: Option<WifiCall>) -> bool {
    let ssid = text_or_empty(before.add_ssid@.subrange(0, before.add_ssid_len as int));
    let psk = text_or_empty(before.add_psk@.subrange(0, before.add_psk_len as int));
    &&& editing_stopped(before, WifiUiState { saved_add_outcome: before.saved_add_outcome, ..after })
    &&& if saved_add_refused(ssid, psk) {
        call is None && after.saved_add_outcome == Some(Err::<(), WifiOpError>(WifiOpError::Invalid))
    } else {
        after.saved_add_outcome == before.saved_add_outcome && (call matches Some(WifiCall::SavedAdd(m))
            && is_request(m, NetworkTag::WifiSavedAddRequest.spec_code(), saved_add_words(ssid, psk, v)))
    }
}

/// What enter does to the prompt (see `wifi_prompt_enter`).
pub open spec fn prompt_entered(before: WifiUiState, after: WifiUiState, r: (bool, Option<WifiCall>)) -> bool {
    &&& before.prompt is None ==> !r.0 && r.1 is None && after == before
    &&& before.prompt == Some(WifiPrompt::JoinPsk) ==> r.0 && join_psk_entered(before, after, r.1)
    &&& before.prompt == Some(WifiPrompt::SavedSsid) ==> r.1 is None && r.0 == (before.prompt_len > 0)
        && (r.0 ==> ssid_entered(before, after)) && (!r.0 ==> after == before)
    &&& before.prompt == Some(WifiPrompt::SavedPsk) ==> r.1 is None && r.0 == (before.prompt_len > 0)
        && (r.0 ==> psk_entered(before, after)) && (!r.0 ==> after == before)
    &&& before.prompt == Some(WifiPrompt::SavedPriority) ==> match priority_of(typed(before)) {
        Some(v) => r.0 && priority_entered(before, after, v, r.1),
        None => !r.0 && r.1 is None && after == before,
    }
}

/// Enter in the open prompt. Without a prompt nothing happens (`false`).
/// The key stage of a join always closes (see `join_psk_entered`). The
/// SSID and key stages move on when something was typed and otherwise
/// stay. The priority stage, with a valid priority, closes and saves the
/// network (see `priority_entered`), and otherwise stays.
pub fn wifi_prompt_enter(state: &mut WifiUiState) -> (r: (bool, Option<WifiCall>))
    requires
        old(state).wf(),
    ensures
        final(state).wf(),
        prompt_entered(*old(state), *final(state), r)
{
    let prompt = match state.prompt {
        Some(p) => p,
        None => return (false, None),
    };
    let len = state.prompt_len;
    match prompt {
        WifiPrompt::JoinPsk => {
            let entry = state.scans[state.selected_scan];
            let (head, _) = state.prompt_edit.as_slice().split_at(len);
            let psk = str_from_utf8(head);
            let ssid = ssid_str(&entry.ssid, entry.ssid_len);
            let request = network_wifi_join_request(ssid, psk);
            proof {
                assert(head@ =~= typed(*old(state)));
            }
            state.stop_editing();
            match request {
                Ok(m) => (true, Some(WifiCall::Join(m))),
                Err(e) => {
                    state.join_outcome = Some(Err(classify(e)));
                    (true, None)
                },
            }
        },
        WifiPrompt::SavedSsid => {
            if len == 0 {
                return (false, None);
            }
            let ssid = prefix32(&state.prompt_edit, len);
            state.add_ssid_len = len;
            state.add_ssid = ssid;
            state.open_prompt(WifiPrompt::SavedPsk);
            (true, None)
        },
        WifiPrompt::SavedPsk => {
            if len == 0 {
                return (false, None);
            }
            let psk = prefix64(&state.prompt_edit, len);
            state.add_psk_len = len;
            state.add_psk = psk;
            state.open_prompt(WifiPrompt::SavedPriority);
            (true, None)
        },
        WifiPrompt::SavedPriority => {
            let (head, _) = state.prompt_edit.as_slice().split_at(len);
            proof {
                assert(head@ =~= typed(*old(state)));
            }
            let priority = match parse_priority(head) {
                Some(v) => v,
                None => return (false, None),
            };
            let (ssid_bytes, _) = state.add_ssid.as_slice().split_at(state.add_ssid_len);
            let (psk_bytes, _) = state.add_psk.as_slice().split_at(state.add_psk_len);
            let request = network_wifi_saved_add_request(text_of(ssid_bytes), text_of(psk_bytes), priority);
            state.stop_editing();
            match request {
                Ok(m) => (true, Some(WifiCall::SavedAdd(m))),
                Err(e) => {
                    state.saved_add_outcome = Some(Err(classify(e)));
                    (true, None)
                },
            }
        },
    }
}

/// What a join's round trip gives: the reply's link state, or its error,
/// classified.
pub open spec fn join_answer(reply: Result<RawMessage>) -> core::result::Result<WifiLinkState, WifiOpError> {
    match reply {
        Ok(r) => classified(link_result(r, NetworkTag::WifiJoinReply.spec_code())),
        Err(e) => Err(classify_of(e)),
    }
}

/// What a saved-network call's round trip gives, classified.
pub open spec fn status_answer(reply: Result<RawMessage>, tag: u32) -> core::result::Result<(), WifiOpError> {
    match reply {
        Ok(r) => classified(network_result(r, tag, 1, ())),
        Err(e) => Err(classify_of(e)),
    }
}

/// Records the outcome of a join's round trip.
pub fn finish_join(state: &mut WifiUiState, reply: Result<RawMessage>)
    ensures
        *final(state) == (WifiUiState { join_outcome: Some(join_answer(reply)), ..*old(state) }),
{
    let outcome = match reply {
        Ok(r) => match network_wifi_join_parse_reply(&r) {
            Ok(link) => Ok(link),
            Err(e) => Err(classify(e)),
        },
        Err(e) => Err(classify(e)),
    };
    state.join_outcome = Some(outcome);
}

/// Records the outcome of a saved-network add's round trip.
pub fn finish_saved_add(state: &mut WifiUiState, reply: Result<RawMessage>)
    ensures
        *final(state) == (WifiUiState {
            saved_add_outcome: Some(status_answer(reply, NetworkTag::WifiSavedAddReply.spec_code())),
            ..*old(state)
        }),
{
    let outcome = match reply {
        Ok(r) => match network_check(&r, NetworkTag::WifiSavedAddReply.code(), 1) {
            Ok(()) => Ok(()),
            Err(e) => Err(classify(e)),
        },
        Err(e) => Err(classify(e)),
    };
    state.saved_add_outcome = Some(outcome);
}

/// Records the outcome of a saved-network removal's round trip.
pub fn finish_saved_remove(state: &mut WifiUiState, reply: Result<RawMessage>)
    ensures
        *final(state) == (WifiUiState {
            saved_remove_outcome: Some(status_answer(reply, NetworkTag::WifiSavedRemoveReply.spec_code())),
            ..*old(state)
        }),
{
    let outcome = match reply {
        Ok(r) => match network_check(&r, NetworkTag::WifiSavedRemoveReply.code(), 1) {
            Ok(()) => Ok(()),
            Err(e) => Err(classify(e)),
        },
        Err(e) => Err(classify(e)),
    };
    state.saved_remove_outcome = Some(outcome);
}

/// What the remove button does (see `begin_saved_remove`).
pub open spec fn saved_remove_begun(before: WifiUiState, after: WifiUiState, call: Option<WifiCall>) -> bool {
    &&& before.saved_count == 0 ==> call is None && after == before
    &&& before.saved_count > 0 ==> {
        let i = if before.selected_saved < before.saved_count { before.selected_saved as int } else { before.saved_count - 1 };
        let ssid = ssid_shown(before.saved@[i].ssid@, before.saved@[i].ssid_len);
        if ssid_refused(ssid) {
            call is None && after == (WifiUiState { saved_remove_outcome: Some(Err(WifiOpError::Invalid)), ..before })
        } else {
            after == before && (call matches Some(WifiCall::SavedRemove(m))
                && is_request(m, NetworkTag::WifiSavedRemoveRequest.spec_code(), counted_bytes_words(ssid)))
        }
    }
}

/// Removal of the selected saved network (the last one when the selection
/// is past the list). Nothing with an empty list (`None`, no change);
/// otherwise the removal request to send, or, when the SSID is refused, the
/// refusal recorded as the outcome.
pub fn begin_saved_remove(state: &mut WifiUiState) -> (call: Option<WifiCall>)
    requires
        old(state).wf(),
    ensures
        final(state).wf(),
        saved_remove_begun(*old(state), *final(state), call)
{
    if state.saved_count == 0 {
        return None;
    }
    let selected = if state.selected_saved < state.saved_count { state.selected_saved } else { state.saved_count - 1 };
    let record = state.saved[selected];
    match network_wifi_saved_remove_request(ssid_str(&record.ssid, record.ssid_len)) {
        Ok(m) => Some(WifiCall::SavedRemove(m)),
        Err(e) => {
            state.saved_remove_outcome = Some(Err(classify(e)));
            None
        },
    }
}

/// Records a scan's outcome: on success both rows count as filled and the
/// total found is kept; a failure empties the list and keeps its class.
pub fn finish_scan(state: &mut WifiUiState, result: Result<usize>)
    requires
        old(state).wf(),
    ensures
        final(state).wf(),
        *final(state) == (match result {
            Ok(total) => WifiUiState { scan_count: 2, scan_total: total, scan_error: None, ..*old(state) },
            Err(e) => WifiUiState { scan_count: 0, scan_total: 0, scan_error: Some(classify_of(e)), ..*old(state) },
        }),
{
    match result {
        Ok(total) => {
            state.scan_count = WIFI_SCAN_ROWS;
            state.scan_total = total;
            state.scan_error = None;
        },
        Err(e) => {
            state.scan_count = 0;
            state.scan_total = 0;
            state.scan_error = Some(classify(e));
        },
    }
}

/// Records a saved-list reload: on success both rows count as filled and
/// the total kept is stored; a failure empties the list. A selection past
/// the list moves to its last row (row zero for an empty list).
pub fn finish_saved_list(state: &mut WifiUiState, result: Result<usize>)
    requires
        old(state).wf(),
    ensures
        final(state).wf(),
        final(state).saved_count == (if result is Ok { 2usize } else { 0usize }),
        final(state).saved_total == (match result { Ok(total) => total, Err(_) => 0usize }),
        final(state).selected_saved == (if old(state).selected_saved >= final(state).saved_count {
            if final(state).saved_count > 0 { (final(state).saved_count - 1) as usize } else { 0usize }
        } else {
            old(state).selected_saved
        }),
        *final(state) == (WifiUiState {
            saved_count: final(state).saved_count,
            saved_total: final(state).saved_total,
            selected_saved: final(state).selected_saved,
            ..*old(state)
        }),
{
    match result {
        Ok(total) => {
            state.saved_count = WIFI_SAVED_ROWS;
            state.saved_total = total;
        },
        Err(_) => {
            state.saved_count = 0;
            state.saved_total = 0;
        },
    }
    if state.selected_saved >= state.saved_count {
        state.selected_saved = if state.saved_count > 0 { state.saved_count - 1 } else { 0 };
    }
}

/// A backspace right after a character was taken into the prompt gives
/// back the prompt as it was typed before: the same stage, the same typed
/// text, and nothing else changed but the unused tail of the buffer.
pub proof fn lemma_backspace_undoes_char(s0: WifiUiState, ch: char, s1: WifiUiState, s2: WifiUiState, typed_it: bool, erased: bool)
    requires
        s0.wf(),
        prompt_char_step(s0, ch, s1, typed_it),
        typed_it,
        prompt_backspace_step(s1, s2, erased),
    ensures
        erased,
        typed(s2) == typed(s0),
        s2 == (WifiUiState { prompt_edit: s2.prompt_edit, ..s0 }),
{
    assert(typed(s2) =~= typed(s0));
}

} // verus!
