//! The session service's decisions: answering session requests against the
//! registry, and turning kernel and client input into desktop input for the
//! active session only.
use vstd::prelude::*;

use crate::abi::{DesktopInputAction, InputButton, InputEventKind, LogDomain, LogEvent, LogSeverity, ServiceId, SessionInputSource, SessionStatus, SessionTag};
use crate::desktop::{desktop_key_input_async, desktop_pointer_input_async, desktop_pointer_scroll_input_async, input_words};
use crate::error::{Error, Result};
use crate::log_service::{record_words, send_log_record};
use crate::message::{is_request, request_words, Handle, RawMessage, INVALID_HANDLE};
use crate::session_registry::{
    new_session, FocusError, InputDecision, RegisterError, RegistryView, SessionKind, SessionRegistry, SessionView, SwitchError,
    BOOTSTRAP_SESSION_ID, MAX_SESSIONS, NO_SEAT, PRIMARY_SEAT,
};

verus! {

/// Tag of a request to make another session the active one.
pub const SWITCH_ACTIVE_REQUEST: u32 = 0x986;
/// Tag of the answer to a switch request.
pub const SWITCH_ACTIVE_REPLY: u32 = 0x987;
/// Tag of a request for the active session.
pub const CURRENT_SESSION_REQUEST: u32 = 0x988;
/// Tag of the answer to a current-session request.
pub const CURRENT_SESSION_REPLY: u32 = 0x989;
/// Tag of a request to register a session.
pub const REGISTER_SESSION_REQUEST: u32 = 0x98a;
/// Tag of the answer to a register request.
pub const REGISTER_SESSION_REPLY: u32 = 0x98b;
/// Tag of client-reported input relayed for a peripheral device (no answer
/// is sent).
pub const CLIENT_INPUT_REQUEST: u32 = 0x98c;

/// The session the service boots with.
pub const SESSION_ID: u32 = 1;
/// Modifier bit of a held shift key.
pub const MOD_SHIFT: u32 = 1;
/// Modifier bit of a held alt key.
pub const MOD_ALT: u32 = 2;
/// Modifier bit of a held control key.
pub const MOD_CTRL: u32 = 4;
/// Session requests served in one turn of the service loop.
pub const MAX_SESSION_REQUESTS_PER_TURN: usize = 16;
/// Input events drained in one turn of the service loop.
pub const MAX_INPUT_EVENTS_PER_TURN: usize = 32;

pub const KEY_LEFT_SHIFT: u32 = 42;
pub const KEY_RIGHT_SHIFT: u32 = 54;
pub const KEY_LEFT_ALT: u32 = 56;
pub const KEY_RIGHT_ALT: u32 = 100;
pub const KEY_LEFT_CTRL: u32 = 29;
pub const KEY_RIGHT_CTRL: u32 = 97;

/// One input event: its kind, code, two values and the device it came
/// from.
#[derive(Clone, Copy, Debug, Eq, PartialEq)]
pub struct InputEventInfo {
    pub kind: u32,
    pub code: u32,
    pub value0: i32,
    pub value1: i32,
    pub source_id: u32,
}

/// Verdict on one client-sourced input message.
#[derive(Clone, Copy, Debug, Eq, PartialEq)]
pub enum ClientInputVerdict {
    /// Wrong shape or unknown event kind: dropped silently.
    Malformed,
    /// A well-formed event; `source_id` carries the peripheral device.
    Routed(InputEventInfo),
}

/// The event kinds the kernel reports.
pub open spec fn known_kind(kind: u32) -> bool {
    kind == InputEventKind::PointerMotion.spec_code() || kind == InputEventKind::PointerButton.spec_code()
        || kind == InputEventKind::Key.spec_code() || kind == InputEventKind::PointerDelta.spec_code()
        || kind == InputEventKind::PointerScroll.spec_code()
}

/// Decodes a client input message `[device, kind, code, value0, value1]`:
/// malformed when shorter than five words or of an unknown kind; the two
/// values are the low halves of their words, read as signed.
pub fn decode_client_input(request: &RawMessage) -> (v: ClientInputVerdict)
    ensures
        (request.word_count < 5 || !known_kind(request.words[1] as u32)) ==> v == ClientInputVerdict::Malformed,
        !(request.word_count < 5 || !known_kind(request.words[1] as u32)) ==> v == ClientInputVerdict::Routed(InputEventInfo {
            kind: request.words[1] as u32,
            code: request.words[2] as u32,
            value0: (request.words[3] as u32) as i32,
            value1: (request.words[4] as u32) as i32,
            source_id: request.words[0] as u32,
        }),
{
    if request.word_count < 5 {
        return ClientInputVerdict::Malformed;
    }
    let kind = request.words[1] as u32;
    let known = kind == InputEventKind::PointerMotion.code() || kind == InputEventKind::PointerButton.code()
        || kind == InputEventKind::Key.code() || kind == InputEventKind::PointerDelta.code()
        || kind == InputEventKind::PointerScroll.code();
    if !known {
        return ClientInputVerdict::Malformed;
    }
    ClientInputVerdict::Routed(InputEventInfo {
        kind,
        code: request.words[2] as u32,
        value0: request.words[3] as u32 as i32,
        value1: request.words[4] as u32 as i32,
        source_id: request.words[0] as u32,
    })
}

/// Client-sourced input passes the same gate as hardware input: only while
/// the isolation policy routes input to a session's desktop.
pub fn client_input_routable(decision: InputDecision) -> (b: bool)
    ensures
        b == (decision is RouteToDesktop),
{
    match decision {
        InputDecision::RouteToDesktop(_) => true,
        _ => false,
    }
}

/// The kind a newly registered session gets: graphical.
pub fn session_kind_hint(request: &RawMessage) -> (k: SessionKind)
    ensures
        k == SessionKind::Graphical,
{
    SessionKind::Graphical
}

/// The status a refused focus request is answered with.
pub open spec fn focus_status(error: FocusError) -> SessionStatus {
    match error {
        FocusError::UnknownSession => SessionStatus::NotFound,
        _ => SessionStatus::Denied,
    }
}

/// An unknown session is not found; an inactive session or a surface of
/// another session is denied.
pub fn focus_error_status(error: FocusError) -> (s: SessionStatus)
    ensures
        s == focus_status(error),
{
    match error {
        FocusError::UnknownSession => SessionStatus::NotFound,
        FocusError::InactiveSession | FocusError::ForeignSurface => SessionStatus::Denied,
    }
}

/// `value` clamped to `0 ..= 65535`.
pub open spec fn clamp16(value: i32) -> int {
    if value < 0 { 0 } else if value > 65535 { 65535 } else { value as int }
}

/// Scales an absolute pointer axis from the device range `0 ..= 65535`
/// (values outside it are clamped) onto `0 ..= limit - 1`, rounding down;
/// zero on an output of no extent.
pub fn scale_input_axis(value: i32, limit: u32) -> (r: i32)
    ensures
        limit == 0 ==> r == 0,
        limit > 0 ==> r == ((clamp16(value) * (limit - 1)) / 65535) as i32,
{
    if limit == 0 {
        return 0;
    }
    let clamped: u64 = if value < 0 { 0 } else if value > 65535 { 65535 } else { value as u64 };
    let span: u64 = (limit - 1) as u64;
    assert(clamped * span <= 65535 * 0xffff_ffff) by (nonlinear_arith)
        requires
            clamped <= 65535,
            span <= 0xffff_ffff,
    ;
    ((clamped * span) / 65535) as i32
}

/// Clamps a relative pointer position onto `0 ..= limit - 1`; zero on an
/// output of no extent.
pub fn clamp_axis(value: i32, limit: u32) -> (r: i32)
    requires
        limit <= 0x8000_0000,
    ensures
        limit == 0 ==> r == 0,
        limit > 0 ==> r == (if value < 0 { 0 } else if value > limit - 1 { limit - 1 } else { value as int }),
{
    if limit == 0 {
        return 0;
    }
    let max: i32 = (limit - 1) as i32;
    if value < 0 {
        0
    } else if value > max {
        max
    } else {
        value
    }
}

/// Input the desktop cannot take right now (`Busy`, `CapacityExceeded`) is
/// dropped rather than failing the turn; other outcomes pass through.
pub fn tolerate_input_backpressure(result: Result<()>) -> (r: Result<()>)
    ensures
        (result == Err::<(), Error>(Error::Busy) || result == Err::<(), Error>(Error::CapacityExceeded)) ==> r == Ok::<(), Error>(()),
        !(result == Err::<(), Error>(Error::Busy) || result == Err::<(), Error>(Error::CapacityExceeded)) ==> r == result,
{
    match result {
        Err(Error::Busy) | Err(Error::CapacityExceeded) => Ok(()),
        other => other,
    }
}

/// The modifier bit a key controls: shift, alt or control (either side),
/// none for other keys.
pub open spec fn modifier_bit(key_code: u32) -> u32 {
    if key_code == KEY_LEFT_SHIFT || key_code == KEY_RIGHT_SHIFT {
        MOD_SHIFT
    } else if key_code == KEY_LEFT_ALT || key_code == KEY_RIGHT_ALT {
        MOD_ALT
    } else if key_code == KEY_LEFT_CTRL || key_code == KEY_RIGHT_CTRL {
        MOD_CTRL
    } else {
        0
    }
}

/// The modifier set after key `key_code` went down (`pressed`) or up: the
/// key's modifier bit set or cleared, other bits unchanged.
pub fn update_modifier_state(modifiers: u32, key_code: u32, pressed: bool) -> (m: u32)
    ensures
        modifier_bit(key_code) == 0 ==> m == modifiers,
        modifier_bit(key_code) != 0 && pressed ==> m == modifiers | modifier_bit(key_code),
        modifier_bit(key_code) != 0 && !pressed ==> m == modifiers & !modifier_bit(key_code),
{
    let bit = if key_code == KEY_LEFT_SHIFT || key_code == KEY_RIGHT_SHIFT {
        MOD_SHIFT
    } else if key_code == KEY_LEFT_ALT || key_code == KEY_RIGHT_ALT {
        MOD_ALT
    } else if key_code == KEY_LEFT_CTRL || key_code == KEY_RIGHT_CTRL {
        MOD_CTRL
    } else {
        0
    };
    if bit == 0 {
        return modifiers;
    }
    if pressed {
        modifiers | bit
    } else {
        modifiers & !bit
    }
}

/// The character a key types on a US layout, with or without shift; none
/// for keys that type nothing.
pub open spec fn key_char(key_code: u32, shift: bool) -> Option<char> {
    let pick = |lower: char, upper: char| if shift { upper } else { lower };
    if key_code == 2 { Some(pick('1', '!')) }
    else if key_code == 3 { Some(pick('2', '@')) }
    else if key_code == 4 { Some(pick('3', '#')) }
    else if key_code == 5 { Some(pick('4', '$')) }
    else if key_code == 6 { Some(pick('5', '%')) }
    else if key_code == 7 { Some(pick('6', '^')) }
    else if key_code == 8 { Some(pick('7', '&')) }
    else if key_code == 9 { Some(pick('8', '*')) }
    else if key_code == 10 { Some(pick('9', '(')) }
    else if key_code == 11 { Some(pick('0', ')')) }
    else if key_code == 12 { Some(pick('-', '_')) }
    else if key_code == 13 { Some(pick('=', '+')) }
    else if key_code == 15 { Some('\t') }
    else if key_code == 16 { Some(pick('q', 'Q')) }
    else if key_code == 17 { Some(pick('w', 'W')) }
    else if key_code == 18 { Some(pick('e', 'E')) }
    else if key_code == 19 { Some(pick('r', 'R')) }
    else if key_code == 20 { Some(pick('t', 'T')) }
    else if key_code == 21 { Some(pick('y', 'Y')) }
    else if key_code == 22 { Some(pick('u', 'U')) }
    else if key_code == 23 { Some(pick('i', 'I')) }
    else if key_code == 24 { Some(pick('o', 'O')) }
    else if key_code == 25 { Some(pick('p', 'P')) }
    else if key_code == 26 { Some(pick('[', '{')) }
    else if key_code == 27 { Some(pick(']', '}')) }
    else if key_code == 28 { Some('\n') }
    else if key_code == 30 { Some(pick('a', 'A')) }
    else if key_code == 31 { Some(pick('s', 'S')) }
    else if key_code == 32 { Some(pick('d', 'D')) }
    else if key_code == 33 { Some(pick('f', 'F')) }
    else if key_code == 34 { Some(pick('g', 'G')) }
    else if key_code == 35 { Some(pick('h', 'H')) }
    else if key_code == 36 { Some(pick('j', 'J')) }
    else if key_code == 37 { Some(pick('k', 'K')) }
    else if key_code == 38 { Some(pick('l', 'L')) }
    else if key_code == 39 { Some(pick(';', ':')) }
    else if key_code == 40 { Some(pick('\'', '"')) }
    else if key_code == 41 { Some(pick('`', '~')) }
    else if key_code == 43 { Some(pick('\\', '|')) }
    else if key_code == 44 { Some(pick('z', 'Z')) }
    else if key_code == 45 { Some(pick('x', 'X')) }
    else if key_code == 46 { Some(pick('c', 'C')) }
    else if key_code == 47 { Some(pick('v', 'V')) }
    else if key_code == 48 { Some(pick('b', 'B')) }
    else if key_code == 49 { Some(pick('n', 'N')) }
    else if key_code == 50 { Some(pick('m', 'M')) }
    else if key_code == 51 { Some(pick(',', '<')) }
    else if key_code == 52 { Some(pick('.', '>')) }
    else if key_code == 53 { Some(pick('/', '?')) }
    else if key_code == 57 { Some(' ') }
    else { None }
}

/// The character key `key_code` types under `modifiers` (shift decides
/// the case and symbols).
pub fn keycode_to_text(key_code: u32, modifiers: u32) -> (c: Option<char>)
    ensures
        c == key_char(key_code, modifiers & MOD_SHIFT != 0),
{
    let shift = modifiers & MOD_SHIFT != 0;
    let pair: Option<(char, char)> = match key_code {
        2 => Some(('1', '!')),
        3 => Some(('2', '@')),
        4 => Some(('3', '#')),
        5 => Some(('4', '$')),
        6 => Some(('5', '%')),
        7 => Some(('6', '^')),
        8 => Some(('7', '&')),
        9 => Some(('8', '*')),
        10 => Some(('9', '(')),
        11 => Some(('0', ')')),
        12 => Some(('-', '_')),
        13 => Some(('=', '+')),
        15 => Some(('\t', '\t')),
        16 => Some(('q', 'Q')),
        17 => Some(('w', 'W')),
        18 => Some(('e', 'E')),
        19 => Some(('r', 'R')),
        20 => Some(('t', 'T')),
        21 => Some(('y', 'Y')),
        22 => Some(('u', 'U')),
        23 => Some(('i', 'I')),
        24 => Some(('o', 'O')),
        25 => Some(('p', 'P')),
        26 => Some(('[', '{')),
        27 => Some((']', '}')),
        28 => Some(('\n', '\n')),
        30 => Some(('a', 'A')),
        31 => Some(('s', 'S')),
        32 => Some(('d', 'D')),
        33 => Some(('f', 'F')),
        34 => Some(('g', 'G')),
        35 => Some(('h', 'H')),
        36 => Some(('j', 'J')),
        37 => Some(('k', 'K')),
        38 => Some(('l', 'L')),
        39 => Some((';', ':')),
        40 => Some(('\'', '"')),
        41 => Some(('`', '~')),
        43 => Some(('\\', '|')),
        44 => Some(('z', 'Z')),
        45 => Some(('x', 'X')),
        46 => Some(('c', 'C')),
        47 => Some(('v', 'V')),
        48 => Some(('b', 'B')),
        49 => Some(('n', 'N')),
        50 => Some(('m', 'M')),
        51 => Some((',', '<')),
        52 => Some(('.', '>')),
        53 => Some(('/', '?')),
        57 => Some((' ', ' ')),
        _ => None,
    };
    match pair {
        Some((lower, upper)) => Some(if shift { upper } else { lower }),
        None => None,
    }
}

/// The log record the session service emits for `event` with two
/// arguments.
pub fn emit_log(severity: LogSeverity, event: LogEvent, arg0: u64, arg1: u64) -> (m: RawMessage)
    ensures
        is_request(m, crate::abi::LogTag::Record.spec_code(), record_words(ServiceId::Session, severity, LogDomain::Session, event, arg0, arg1, 0)),
{
    send_log_record(ServiceId::Session, severity, LogDomain::Session, event, arg0, arg1)
}

/// The registry a session service boots with: the bootstrap session on the
/// primary seat, active, and no handoff.
pub open spec fn boot_view() -> RegistryView {
    RegistryView {
        slots: seq![Some(new_session(BOOTSTRAP_SESSION_ID, Some(PRIMARY_SEAT), SessionKind::Graphical)), None::<SessionView>, None::<SessionView>, None::<SessionView>],
        active_id: BOOTSTRAP_SESSION_ID,
        handoff_active: false,
        handoff_from: 0,
        handoff_to: 0,
    }
}

/// The isolation verdict of a registry: drop during a handoff, route to
/// the active session when it is registered, else drop.
pub open spec fn input_decision(v: RegistryView) -> InputDecision {
    if v.handoff_active {
        InputDecision::DropHandoff
    } else if v.has(v.active_id) {
        InputDecision::RouteToDesktop(v.active_id)
    } else {
        InputDecision::DropNoSession
    }
}

/// What the session service holds between turns.
pub struct SessionState {
    pub registry: SessionRegistry,
    pub input_source: SessionInputSource,
    pub input_handle: Handle,
    /// The cached route to the desktop shell, `INVALID_HANDLE` when none is
    /// bound.
    pub desktop_handle: Handle,
    pub output_width: u32,
    pub output_height: u32,
    pub pointer_x: i32,
    pub pointer_y: i32,
    pub modifiers: u32,
}

impl SessionState {
    /// The registry is well formed and the output's extent fits a signed
    /// pointer position.
    pub open spec fn wf(&self) -> bool {
        &&& self.registry.well_formed()
        &&& self.output_width <= 0x8000_0000
        &&& self.output_height <= 0x8000_0000
    }

    /// The state the service starts in: the booted registry; input from
    /// the service-control channel when the input source reports no
    /// capabilities, else from hardware; no desktop route; the pointer at
    /// the centre of the output.
    pub fn new(input_capabilities: u32, input_handle: Handle, output_width: u32, output_height: u32) -> (s: Self)
        requires
            output_width <= 0x8000_0000,
            output_height <= 0x8000_0000,
        ensures
            s.wf(),
            s.registry@ == boot_view(),
            s.input_source == (if input_capabilities == 0 { SessionInputSource::ServiceControl } else { SessionInputSource::Hardware }),
            s.input_handle == input_handle,
            s.desktop_handle == INVALID_HANDLE,
            s.output_width == output_width,
            s.output_height == output_height,
            s.pointer_x == output_width / 2,
            s.pointer_y == output_height / 2,
            s.modifiers == 0,
    {
        SessionState {
            registry: SessionRegistry::boot(),
            input_source: if input_capabilities == 0 { SessionInputSource::ServiceControl } else { SessionInputSource::Hardware },
            input_handle,
            desktop_handle: INVALID_HANDLE,
            output_width,
            output_height,
            pointer_x: (output_width / 2) as i32,
            pointer_y: (output_height / 2) as i32,
            modifiers: 0,
        }
    }
}

/// What the service does after one session request.
#[derive(Debug)]
pub enum SessionAction {
    /// Nothing: the request is malformed, carries no reply channel, or is
    /// input that isolation drops.
    Ignore,
    /// Send `reply` on `to` and close `to`; then send `log` (if any) to the
    /// log service, and close `close` (a desktop route torn down by a
    /// switch), if any.
    Reply { to: Handle, reply: RawMessage, log: Option<RawMessage>, close: Option<Handle> },
    /// Route this client-sourced event to the active desktop.
    Route(InputEventInfo),
}

/// The action answers on `to` with the words `ws` under `tag`, sends the
/// log record with words `log` when there is one, and closes `close`.
pub open spec fn answers(out: SessionAction, to: Handle, tag: u32, ws: Seq<u64>, log: Option<Seq<u64>>, close: Option<Handle>) -> bool {
    out matches SessionAction::Reply { to: t, reply, log: l, close: c } && {
        &&& t == to
        &&& is_request(reply, tag, ws)
        &&& c == close
        &&& match log {
            None => l is None,
            Some(lw) => l matches Some(lm) && is_request(lm, crate::abi::LogTag::Record.spec_code(), lw),
        }
    }
}

/// The words of a session-service log record for `event`.
pub open spec fn session_log(event: LogEvent, arg0: u64, arg1: u64) -> Seq<u64> {
    record_words(ServiceId::Session, LogSeverity::Info, LogDomain::Session, event, arg0, arg1, 0)
}

/// The word that carries an optional seat.
pub open spec fn seat_word(seat: Option<u32>) -> u64 {
    match seat {
        Some(s) => s as u64,
        None => NO_SEAT as u64,
    }
}

/// The words of a list reply: success, how many ids follow (at most
/// `MAX_SESSIONS`), the ids, and the active session.
pub open spec fn list_words(v: RegistryView) -> Seq<u64> {
    let n = vstd::math::min(4, v.ids().len() as int);
    seq![SessionStatus::Success.spec_code() as u64, n as u64]
        + v.ids().subrange(0, n).map_values(|id: u32| id as u64)
        + seq![v.active_id as u64]
}

/// The words of a status reply for session `id`.
pub open spec fn status_words(v: RegistryView, source: SessionInputSource, id: u32) -> Seq<u64> {
    match v.session(id) {
        None => seq![SessionStatus::NotFound.spec_code() as u64, 0u64, 0u64, 0u64, 0u64, 0u64, 0u64],
        Some(s) => {
            let snap = v.snapshot(s);
            seq![SessionStatus::Success.spec_code() as u64, snap.id as u64, source.spec_code() as u64,
                snap.focused_surface as u64, snap.surface_count_hint as u64, if snap.active { 1u64 } else { 0u64 },
                seat_word(snap.seat)]
        },
    }
}

/// The words of a current-session reply.
pub open spec fn current_words(v: RegistryView) -> Seq<u64> {
    match v.session(v.active_id) {
        Some(s) => seq![SessionStatus::Success.spec_code() as u64, s.id as u64, seat_word(s.seat)],
        None => seq![SessionStatus::NotFound.spec_code() as u64, 0u64, NO_SEAT as u64],
    }
}

/// The status a refused registration is answered with.
pub open spec fn register_status(e: RegisterError) -> SessionStatus {
    match e {
        RegisterError::CapacityExceeded => SessionStatus::Busy,
        _ => SessionStatus::Denied,
    }
}

/// The status a refused switch is answered with.
pub open spec fn switch_status(e: SwitchError) -> SessionStatus {
    match e {
        SwitchError::UnknownTarget => SessionStatus::NotFound,
        SwitchError::AlreadyActive => SessionStatus::Busy,
    }
}

/// `s1` differs from `s0` at most in its registry and desktop route.
pub open spec fn keeps_input(s0: SessionState, s1: SessionState) -> bool {
    &&& s1.input_source == s0.input_source
    &&& s1.input_handle == s0.input_handle
    &&& s1.output_width == s0.output_width
    &&& s1.output_height == s0.output_height
    &&& s1.pointer_x == s0.pointer_x
    &&& s1.pointer_y == s0.pointer_y
    &&& s1.modifiers == s0.modifiers
}

/// One request of the session service, from state `s0` to state `s1` with
/// action `out`. Requests without a reply channel or with too few words,
/// and requests of unknown tags, are ignored and change nothing.
pub open spec fn session_step(s0: SessionState, req: RawMessage, s1: SessionState, out: SessionAction) -> bool {
    let v = s0.registry@;
    let w = s1.registry@;
    let to = req.handles[0];
    let unchanged = w == v && s1.desktop_handle == s0.desktop_handle && keeps_input(s0, s1);
    if req.tag == SessionTag::ListRequest.spec_code() {
        unchanged && if req.handle_count < 1 { out is Ignore } else {
            answers(out, to, SessionTag::ListReply.spec_code(), list_words(v), None, None)
        }
    } else if req.tag == SessionTag::StatusRequest.spec_code() {
        unchanged && if req.word_count < 1 || req.handle_count < 1 { out is Ignore } else {
            answers(out, to, SessionTag::StatusReply.spec_code(), status_words(v, s0.input_source, req.words[0] as u32), None, None)
        }
    } else if req.tag == SessionTag::FocusRequest.spec_code() {
        if req.word_count < 2 || req.handle_count < 1 { unchanged && out is Ignore } else {
            let id = req.words[0] as u32;
            let surface = req.words[1] as u32;
            &&& s1.desktop_handle == s0.desktop_handle && keeps_input(s0, s1)
            &&& match SessionRegistry::focus_outcome(v, id, surface) {
                Ok(f) => w == SessionRegistry::focused_view(v, id, surface)
                    && answers(out, to, SessionTag::FocusReply.spec_code(), seq![SessionStatus::Success.spec_code() as u64, f as u64],
                        Some(session_log(LogEvent::SessionFocusChanged, id as u64, match w.session(id) { Some(s) => s.focused_surface as u64, None => 0 })), None),
                Err(e) => w == v && answers(out, to, SessionTag::FocusReply.spec_code(), seq![focus_status(e).spec_code() as u64, 0u64], None, None),
            }
        }
    } else if req.tag == SWITCH_ACTIVE_REQUEST {
        if req.word_count < 1 || req.handle_count < 1 { unchanged && out is Ignore } else {
            let target = req.words[0] as u32;
            &&& keeps_input(s0, s1)
            &&& match SessionRegistry::switch_error(v, target) {
                Some(e) => w == v && s1.desktop_handle == s0.desktop_handle
                    && answers(out, to, SWITCH_ACTIVE_REPLY, seq![switch_status(e).spec_code() as u64, 0u64, 0u64], None, None),
                None => w == SessionRegistry::completed_view(v, SessionRegistry::started_record(v, target))
                    && s1.desktop_handle == INVALID_HANDLE
                    && answers(out, to, SWITCH_ACTIVE_REPLY, seq![SessionStatus::Success.spec_code() as u64, v.active_id as u64, target as u64],
                        Some(session_log(LogEvent::SessionFocusChanged, v.active_id as u64, target as u64)),
                        if s0.desktop_handle != INVALID_HANDLE { Some(s0.desktop_handle) } else { None }),
            }
        }
    } else if req.tag == CURRENT_SESSION_REQUEST {
        unchanged && if req.handle_count < 1 { out is Ignore } else {
            answers(out, to, CURRENT_SESSION_REPLY, current_words(v), None, None)
        }
    } else if req.tag == REGISTER_SESSION_REQUEST {
        if req.word_count < 2 || req.handle_count < 1 { unchanged && out is Ignore } else {
            let requested = req.words[0] as u32;
            let seat_in = req.words[1] as u32;
            let id = if requested == 0 { v.next_free_id() } else { requested };
            let seat = if seat_in == NO_SEAT { None } else { Some(seat_in) };
            &&& s1.desktop_handle == s0.desktop_handle && keeps_input(s0, s1)
            &&& match SessionRegistry::insert_error(v, id, seat) {
                Some(e) => w == v && answers(out, to, REGISTER_SESSION_REPLY, seq![register_status(e).spec_code() as u64, 0u64], None, None),
                None => w == SessionRegistry::inserted_view(v, id, seat, SessionKind::Graphical)
                    && answers(out, to, REGISTER_SESSION_REPLY, seq![SessionStatus::Success.spec_code() as u64, id as u64],
                        Some(session_log(LogEvent::SessionReady, id as u64, seat_in as u64)), None),
            }
        }
    } else if req.tag == CLIENT_INPUT_REQUEST {
        unchanged && if req.word_count < 5 || !known_kind(req.words[1] as u32) || !(input_decision(v) is RouteToDesktop) {
            out is Ignore
        } else {
            out == SessionAction::Route(InputEventInfo {
                kind: req.words[1] as u32,
                code: req.words[2] as u32,
                value0: (req.words[3] as u32) as i32,
                value1: (req.words[4] as u32) as i32,
                source_id: req.words[0] as u32,
            })
        }
    } else {
        unchanged && out is Ignore
    }
}

fn list_reply(registry: &SessionRegistry) -> (m: RawMessage)
    requires
        registry.well_formed(),
    ensures
        is_request(m, SessionTag::ListReply.spec_code(), list_words(registry@)),
{
    let mut ids = [0u32; MAX_SESSIONS];
    let n = registry.list_ids(&mut ids);
    let ghost all = registry@.ids();
    let mut m = RawMessage::empty(SessionTag::ListReply.code());
    m.word_count = (3 + n) as u32;
    m.words[0] = SessionStatus::Success.code() as u64;
    m.words[1] = n as u64;
    let mut i: usize = 0;
    while i < n
        invariant
            n <= 4,
            n == vstd::math::min(4, all.len() as int),
            ids@.subrange(0, n as int) == all.subrange(0, n as int),
            ids@.len() == 4,
            i <= n,
            m.tag == SessionTag::ListReply.spec_code(),
            m.flags == 0,
            m.word_count == 3 + n,
            m.words[0] == SessionStatus::Success.spec_code() as u64,
            m.words[1] == n as u64,
            forall|k: int| 0 <= k < i ==> m.words[2 + k] == all[k] as u64,
            forall|k: int| 2 + i <= k < 16 ==> m.words[k] == 0,
            m.handle_count == 0,
            forall|k: int| 0 <= k < 8 ==> m.handles[k] == 0 && m.handle_rights[k] == 0,
        decreases n - i,
    {
        assert(ids@[i as int] == ids@.subrange(0, n as int)[i as int]);
        m.words[2 + i] = ids[i] as u64;
        i = i + 1;
    }
    m.words[2 + n] = registry.current_id() as u64;
    proof {
        let ws = list_words(registry@);
        assert(ws.len() == 3 + n);
        assert forall|k: int| 0 <= k < ws.len() implies m.words[k] == ws[k] by {
            if 2 <= k < 2 + n {
                assert(ws[k] == all.subrange(0, n as int).map_values(|id: u32| id as u64)[k - 2]);
            }
        }
    }
    m
}

fn status_reply(registry: &SessionRegistry, source: SessionInputSource, id: u32) -> (m: RawMessage)
    requires
        registry.well_formed(),
    ensures
        is_request(m, SessionTag::StatusReply.spec_code(), status_words(registry@, source, id)),
{
    let ws: [u64; 7] = match registry.status(id) {
        None => [SessionStatus::NotFound.code() as u64, 0, 0, 0, 0, 0, 0],
        Some(snap) => [
            SessionStatus::Success.code() as u64,
            snap.id as u64,
            source.code() as u64,
            snap.focused_surface as u64,
            snap.surface_count_hint as u64,
            if snap.active { 1 } else { 0 },
            match snap.seat {
                Some(seat) => seat as u64,
                None => NO_SEAT as u64,
            },
        ],
    };
    assert(ws@ =~= status_words(registry@, source, id));
    request_words(SessionTag::StatusReply.code(), ws.as_slice())
}

fn current_reply(registry: &SessionRegistry) -> (m: RawMessage)
    requires
        registry.well_formed(),
    ensures
        is_request(m, CURRENT_SESSION_REPLY, current_words(registry@)),
{
    let ws: [u64; 3] = match registry.current() {
        Some((id, seat)) => [
            SessionStatus::Success.code() as u64,
            id as u64,
            match seat {
                Some(s) => s as u64,
                None => NO_SEAT as u64,
            },
        ],
        None => [SessionStatus::NotFound.code() as u64, 0, NO_SEAT as u64],
    };
    assert(ws@ =~= current_words(registry@));
    request_words(CURRENT_SESSION_REPLY, ws.as_slice())
}

/// Answers one session request against the registry (see
/// `session_step`): lists, reports, focuses, switches and registers
/// sessions, and passes well-formed client input on for routing while the
/// isolation policy routes input to a desktop.
pub fn handle_request(state: &mut SessionState, request: &RawMessage) -> (out: SessionAction)
    requires
        old(state).wf(),
    ensures
        final(state).wf(),
        session_step(*old(state), *request, *final(state), out),
{
    let to = request.handles[0];
    let tag = request.tag;
    if tag == SessionTag::ListRequest.code() {
        if request.handle_count < 1 {
            return SessionAction::Ignore;
        }
        let reply = list_reply(&state.registry);
        SessionAction::Reply { to, reply, log: None, close: None }
    } else if tag == SessionTag::StatusRequest.code() {
        if request.word_count < 1 || request.handle_count < 1 {
            return SessionAction::Ignore;
        }
        let reply = status_reply(&state.registry, state.input_source, request.words[0] as u32);
        SessionAction::Reply { to, reply, log: None, close: None }
    } else if tag == SessionTag::FocusRequest.code() {
        if request.word_count < 2 || request.handle_count < 1 {
            return SessionAction::Ignore;
        }
        let session_id = request.words[0] as u32;
        let surface_id = request.words[1] as u32;
        match state.registry.focus_request(session_id, surface_id) {
            Ok(focused) => {
                let ws: [u64; 2] = [SessionStatus::Success.code() as u64, focused as u64];
                let reply = request_words(SessionTag::FocusReply.code(), ws.as_slice());
                let now = match state.registry.status(session_id) {
                    Some(snap) => snap.focused_surface,
                    None => 0,
                };
                let log = emit_log(LogSeverity::Info, LogEvent::SessionFocusChanged, session_id as u64, now as u64);
                proof {
                    assert(ws@ =~= seq![SessionStatus::Success.spec_code() as u64, focused as u64]);
                }
                SessionAction::Reply { to, reply, log: Some(log), close: None }
            },
            Err(e) => {
                let ws: [u64; 2] = [focus_error_status(e).code() as u64, 0];
                assert(ws@ =~= seq![focus_status(e).spec_code() as u64, 0u64]);
                let reply = request_words(SessionTag::FocusReply.code(), ws.as_slice());
                SessionAction::Reply { to, reply, log: None, close: None }
            },
        }
    } else if tag == SWITCH_ACTIVE_REQUEST {
        if request.word_count < 1 || request.handle_count < 1 {
            return SessionAction::Ignore;
        }
        let target = request.words[0] as u32;
        let ghost v = state.registry@;
        match state.registry.switch_active(target) {
            Ok(record) => {
                let close = if state.desktop_handle != INVALID_HANDLE {
                    let h = state.desktop_handle;
                    state.desktop_handle = INVALID_HANDLE;
                    Some(h)
                } else {
                    None
                };
                let ws: [u64; 3] = [SessionStatus::Success.code() as u64, record.from as u64, record.to as u64];
                assert(ws@ =~= seq![SessionStatus::Success.spec_code() as u64, v.active_id as u64, target as u64]);
                let reply = request_words(SWITCH_ACTIVE_REPLY, ws.as_slice());
                let log = emit_log(LogSeverity::Info, LogEvent::SessionFocusChanged, record.from as u64, record.to as u64);
                SessionAction::Reply { to, reply, log: Some(log), close }
            },
            Err(e) => {
                let status = match e {
                    SwitchError::UnknownTarget => SessionStatus::NotFound,
                    SwitchError::AlreadyActive => SessionStatus::Busy,
                };
                let ws: [u64; 3] = [status.code() as u64, 0, 0];
                assert(ws@ =~= seq![switch_status(e).spec_code() as u64, 0u64, 0u64]);
                let reply = request_words(SWITCH_ACTIVE_REPLY, ws.as_slice());
                SessionAction::Reply { to, reply, log: None, close: None }
            },
        }
    } else if tag == CURRENT_SESSION_REQUEST {
        if request.handle_count < 1 {
            return SessionAction::Ignore;
        }
        let reply = current_reply(&state.registry);
        SessionAction::Reply { to, reply, log: None, close: None }
    } else if tag == REGISTER_SESSION_REQUEST {
        if request.word_count < 2 || request.handle_count < 1 {
            return SessionAction::Ignore;
        }
        let requested_id = request.words[0] as u32;
        let seat = request.words[1] as u32;
        let kind = session_kind_hint(request);
        match state.registry.register(requested_id, seat, kind) {
            Ok(id) => {
                let ws: [u64; 2] = [SessionStatus::Success.code() as u64, id as u64];
                assert(ws@ =~= seq![SessionStatus::Success.spec_code() as u64, id as u64]);
                let reply = request_words(REGISTER_SESSION_REPLY, ws.as_slice());
                let log = emit_log(LogSeverity::Info, LogEvent::SessionReady, id as u64, seat as u64);
                SessionAction::Reply { to, reply, log: Some(log), close: None }
            },
            Err(e) => {
                let status = match e {
                    RegisterError::CapacityExceeded => SessionStatus::Busy,
                    RegisterError::IdInUse | RegisterError::SeatInUse => SessionStatus::Denied,
                };
                let ws: [u64; 2] = [status.code() as u64, 0];
                assert(ws@ =~= seq![register_status(e).spec_code() as u64, 0u64]);
                let reply = request_words(REGISTER_SESSION_REPLY, ws.as_slice());
                SessionAction::Reply { to, reply, log: None, close: None }
            },
        }
    } else if tag == CLIENT_INPUT_REQUEST {
        match decode_client_input(request) {
            ClientInputVerdict::Malformed => SessionAction::Ignore,
            ClientInputVerdict::Routed(event) => {
                if client_input_routable(state.registry.classify_input()) {
                    SessionAction::Route(event)
                } else {
                    SessionAction::Ignore
                }
            },
        }
    } else {
        SessionAction::Ignore
    }
}

/// One input request for the desktop: the action, then `x`, `y` and
/// `detail`.
pub type DesktopInput = (DesktopInputAction, i32, i32, i32);

/// The messages are the desktop input requests `inputs`, in order.
pub open spec fn carries(msgs: Seq<RawMessage>, inputs: Seq<DesktopInput>) -> bool {
    &&& msgs.len() == inputs.len()
    &&& forall|i: int| 0 <= i < inputs.len() ==> is_request(#[trigger] msgs[i], crate::abi::DesktopTag::InputRequest.spec_code(),
        input_words(inputs[i].0, inputs[i].1, inputs[i].2, inputs[i].3))
}

/// `v` clamped onto `0 ..= limit - 1`; zero on an output of no extent.
pub open spec fn clamp_onto(v: int, limit: u32) -> i32 {
    if limit == 0 { 0 } else if v < 0 { 0 } else if v > limit - 1 { (limit - 1) as i32 } else { v as i32 }
}

/// The request that moves the desktop's pointer to the session's pointer
/// position, when a desktop route is bound.
pub fn flush_pointer_move(state: &SessionState, desktop: bool) -> (m: Option<RawMessage>)
    ensures
        !desktop ==> m is None,
        desktop ==> (m matches Some(msg) && is_request(msg, crate::abi::DesktopTag::InputRequest.spec_code(),
            input_words(DesktopInputAction::PointerMove, state.pointer_x, state.pointer_y, 0))),
{
    if !desktop {
        return None;
    }
    Some(desktop_pointer_input_async(DesktopInputAction::PointerMove, state.pointer_x, state.pointer_y))
}

/// The key inputs a key event yields under the modifiers `m` it leaves:
/// the key going down or up, then, for a press without control held, the
/// character it types if any.
pub open spec fn key_inputs(code: u32, pressed: bool, m: u32) -> Seq<DesktopInput> {
    let key = seq![(if pressed { DesktopInputAction::KeyDown } else { DesktopInputAction::KeyUp }, code as i32, m as i32, 0i32)];
    if pressed && m & MOD_CTRL == 0 && key_char(code, m & MOD_SHIFT != 0) is Some {
        key.push((DesktopInputAction::TextInput, ((key_char(code, m & MOD_SHIFT != 0)->0) as u32) as i32, m as i32, 0i32))
    } else {
        key
    }
}

/// The desktop inputs a non-motion event yields at pointer `(x, y)` under
/// modifiers `m` (as the event leaves them): a left-button press or
/// release, a scroll by `value1`, or key inputs; nothing for other events.
pub open spec fn event_inputs(event: InputEventInfo, x: i32, y: i32, m: u32) -> Seq<DesktopInput> {
    if event.kind == InputEventKind::PointerButton.spec_code() {
        if event.code == InputButton::Left.spec_code() {
            seq![(if event.value0 == 0 { DesktopInputAction::PointerUp } else { DesktopInputAction::PointerDown }, x, y, 0i32)]
        } else {
            Seq::empty()
        }
    } else if event.kind == InputEventKind::PointerScroll.spec_code() {
        seq![(DesktopInputAction::PointerScroll, x, y, event.value1)]
    } else if event.kind == InputEventKind::Key.spec_code() {
        key_inputs(event.code, event.value0 != 0, m)
    } else {
        Seq::empty()
    }
}

/// The modifiers after `event`: a key event sets or clears its modifier
/// bit; other events leave them.
pub open spec fn modifiers_after(event: InputEventInfo, m: u32) -> u32 {
    if event.kind == InputEventKind::Key.spec_code() {
        let bit = modifier_bit(event.code);
        if bit == 0 { m } else if event.value0 != 0 { m | bit } else { m & !bit }
    } else {
        m
    }
}

/// Applies a non-motion event to the desktop when a route is bound
/// (`desktop`): the requests to send, in order. Without a route nothing is
/// sent and nothing changes; with one, a key event also updates the
/// modifiers.
pub fn process_input_event(state: &mut SessionState, event: &InputEventInfo, desktop: bool) -> (out: Vec<RawMessage>)
    ensures
        final(state).registry == old(state).registry,
        final(state).input_source == old(state).input_source,
        final(state).input_handle == old(state).input_handle,
        final(state).desktop_handle == old(state).desktop_handle,
        final(state).output_width == old(state).output_width,
        final(state).output_height == old(state).output_height,
        final(state).pointer_x == old(state).pointer_x,
        final(state).pointer_y == old(state).pointer_y,
        !desktop ==> out@.len() == 0 && final(state).modifiers == old(state).modifiers,
        desktop ==> final(state).modifiers == modifiers_after(*event, old(state).modifiers)
            && carries(out@, event_inputs(*event, old(state).pointer_x, old(state).pointer_y, final(state).modifiers)),
{
    let mut out: Vec<RawMessage> = Vec::new();
    if !desktop {
        return out;
    }
    let x = state.pointer_x;
    let y = state.pointer_y;
    if event.kind == InputEventKind::PointerButton.code() {
        let action = if event.value0 == 0 { DesktopInputAction::PointerUp } else { DesktopInputAction::PointerDown };
        if event.code == InputButton::Left.code() {
            out.push(desktop_pointer_input_async(action, x, y));
        }
    } else if event.kind == InputEventKind::PointerScroll.code() {
        out.push(desktop_pointer_scroll_input_async(x, y, event.value1));
    } else if event.kind == InputEventKind::Key.code() {
        let pressed = event.value0 != 0;
        let m = update_modifier_state(state.modifiers, event.code, pressed);
        state.modifiers = m;
        let action = if pressed { DesktopInputAction::KeyDown } else { DesktopInputAction::KeyUp };
        out.push(desktop_key_input_async(action, event.code, m));
        if pressed && m & MOD_CTRL == 0 {
            match keycode_to_text(event.code, m) {
                Some(ch) => {
                    out.push(desktop_key_input_async(DesktopInputAction::TextInput, ch as u32, m));
                },
                None => {},
            }
        }
        proof {
            let ins = event_inputs(*event, x, y, m);
            assert(out@.len() == ins.len());
            assert forall|i: int| 0 <= i < ins.len() implies is_request(#[trigger] out@[i], crate::abi::DesktopTag::InputRequest.spec_code(),
                input_words(ins[i].0, ins[i].1, ins[i].2, ins[i].3)) by {
            }
        }
    }
    out
}

/// The pointer after a motion or delta event: an absolute motion scales
/// the device axes onto the output; a delta moves by the event's values,
/// clamped onto the output.
pub open spec fn pointer_after(event: InputEventInfo, x: i32, y: i32, width: u32, height: u32) -> (i32, i32) {
    if event.kind == InputEventKind::PointerMotion.spec_code() {
        (
            if width == 0 { 0 } else { ((clamp16(event.value0) * (width - 1)) / 65535) as i32 },
            if height == 0 { 0 } else { ((clamp16(event.value1) * (height - 1)) / 65535) as i32 },
        )
    } else {
        (clamp_onto(x + event.value0, width), clamp_onto(y + event.value1, height))
    }
}

fn saturating_add_i32(a: i32, b: i32) -> (r: i32)
    ensures
        r == (if a + b > i32::MAX { i32::MAX as int } else if a + b < i32::MIN { i32::MIN as int } else { a + b }),
{
    let sum = a as i64 + b as i64;
    if sum > i32::MAX as i64 {
        i32::MAX
    } else if sum < i32::MIN as i64 {
        i32::MIN
    } else {
        sum as i32
    }
}

/// Applies one input event to the session and its desktop route. Motion
/// and delta events only move the session's pointer and mark a move as
/// pending, so that moves coalesce; any other event first sends the
/// pending move (clearing the mark), then is applied by
/// `process_input_event`. `desktop` says whether a desktop route is bound.
pub fn route_input_event(state: &mut SessionState, event: &InputEventInfo, pending: &mut bool, desktop: bool) -> (out: Vec<RawMessage>)
    requires
        old(state).wf(),
    ensures
        final(state).wf(),
        final(state).registry == old(state).registry,
        final(state).desktop_handle == old(state).desktop_handle,
        keeps_input_source(*old(state), *final(state)),
        (event.kind == InputEventKind::PointerMotion.spec_code() || event.kind == InputEventKind::PointerDelta.spec_code()) ==> {
            let p = pointer_after(*event, old(state).pointer_x, old(state).pointer_y, old(state).output_width, old(state).output_height);
            &&& final(state).pointer_x == p.0 && final(state).pointer_y == p.1
            &&& final(state).modifiers == old(state).modifiers
            &&& *final(pending)
            &&& out@.len() == 0
        },
        !(event.kind == InputEventKind::PointerMotion.spec_code() || event.kind == InputEventKind::PointerDelta.spec_code()) ==> {
            let x = old(state).pointer_x;
            let y = old(state).pointer_y;
            let flush: Seq<DesktopInput> = if *old(pending) && desktop { seq![(DesktopInputAction::PointerMove, x, y, 0i32)] } else { Seq::empty() };
            &&& final(state).pointer_x == x && final(state).pointer_y == y
            &&& !*final(pending)
            &&& !desktop ==> out@.len() == 0 && final(state).modifiers == old(state).modifiers
            &&& desktop ==> final(state).modifiers == modifiers_after(*event, old(state).modifiers)
                && carries(out@, flush + event_inputs(*event, x, y, final(state).modifiers))
        },
{
    if event.kind == InputEventKind::PointerMotion.code() {
        state.pointer_x = scale_input_axis(event.value0, state.output_width);
        state.pointer_y = scale_input_axis(event.value1, state.output_height);
        *pending = true;
        return Vec::new();
    }
    if event.kind == InputEventKind::PointerDelta.code() {
        let nx = saturating_add_i32(state.pointer_x, event.value0);
        let ny = saturating_add_i32(state.pointer_y, event.value1);
        state.pointer_x = clamp_axis(nx, state.output_width);
        state.pointer_y = clamp_axis(ny, state.output_height);
        *pending = true;
        return Vec::new();
    }
    let mut out: Vec<RawMessage> = Vec::new();
    if *pending {
        *pending = false;
        match flush_pointer_move(state, desktop) {
            Some(m) => out.push(m),
            None => {},
        }
    }
    let ghost head = out@;
    let mut rest = process_input_event(state, event, desktop);
    let ghost tail = rest@;
    out.append(&mut rest);
    proof {
        if desktop {
            let x = old(state).pointer_x;
            let y = old(state).pointer_y;
            let flush: Seq<DesktopInput> = if *old(pending) { seq![(DesktopInputAction::PointerMove, x, y, 0i32)] } else { Seq::empty() };
            let ins = flush + event_inputs(*event, x, y, state.modifiers);
            assert(out@ == head + tail);
            assert forall|i: int| 0 <= i < ins.len() implies is_request(#[trigger] out@[i], crate::abi::DesktopTag::InputRequest.spec_code(),
                input_words(ins[i].0, ins[i].1, ins[i].2, ins[i].3)) by {
                if i >= flush.len() {
                    assert(out@[i] == tail[i - flush.len()]);
                    assert(ins[i] == event_inputs(*event, x, y, state.modifiers)[i - flush.len()]);
                }
            }
        }
    }
    out
}

/// `s1` keeps `s0`'s input source, handles and output extent.
pub open spec fn keeps_input_source(s0: SessionState, s1: SessionState) -> bool {
    &&& s1.input_source == s0.input_source
    &&& s1.input_handle == s0.input_handle
    &&& s1.output_width == s0.output_width
    &&& s1.output_height == s0.output_height
}


/// One turn's drain of the input source: whether this turn routes input to
/// a desktop, whether it may wait once for a wakeup, the events it may
/// still take, whether it has waited, and whether it took any event.
pub struct InputDrain {
    pub routing: bool,
    pub allow_wait: bool,
    pub remaining: usize,
    pub waited: bool,
    pub processed: bool,
}

/// What the input source answered: an event (read at once or after the
/// wait), an empty queue, or a wait that ended with no event.
#[derive(Clone, Copy, Debug, PartialEq, Eq, Structural)]
pub enum DrainEvent {
    Received,
    Empty,
    NoWakeup,
}

/// What the service does next: drop the event it took (a turn that routes
/// nothing), route it and go on, route it as the turn's last, wait once for
/// a wakeup, or end the turn (flushing a coalesced pointer move first).
#[derive(Clone, Copy, Debug, PartialEq, Eq, Structural)]
pub enum DrainAction {
    Drop,
    Route,
    RouteLast,
    Wait,
    Finish,
}

/// The drain's rule: every event taken counts against the turn's budget
/// and marks the turn as having processed input; a turn that routes
/// nothing drops what it takes and is not cut by the budget; a routing
/// turn ends with the event that spends its budget. An empty queue waits
/// once when the turn allows it, and otherwise ends the turn, as does a
/// wait that brought nothing.
pub open spec fn drain_rel(before: InputDrain, event: DrainEvent, after: InputDrain, action: DrainAction) -> bool {
    match event {
        DrainEvent::Received => {
            let left = if before.remaining == 0 { 0 } else { (before.remaining - 1) as usize };
            &&& after == (InputDrain { remaining: left, processed: true, ..before })
            &&& action == (if !before.routing {
                DrainAction::Drop
            } else if left == 0 {
                DrainAction::RouteLast
            } else {
                DrainAction::Route
            })
        },
        DrainEvent::Empty => if before.allow_wait && !before.waited {
            after == (InputDrain { waited: true, ..before }) && action == DrainAction::Wait
        } else {
            after == before && action == DrainAction::Finish
        },
        DrainEvent::NoWakeup => after == before && action == DrainAction::Finish,
    }
}

impl InputDrain {
    /// A fresh turn's drain: the full budget, no wait used, nothing taken.
    pub fn new(routing: bool, allow_wait: bool) -> (d: Self)
        ensures
            d == (InputDrain { routing, allow_wait, remaining: MAX_INPUT_EVENTS_PER_TURN, waited: false, processed: false }),
    {
        InputDrain { routing, allow_wait, remaining: MAX_INPUT_EVENTS_PER_TURN, waited: false, processed: false }
    }

    /// Takes the input source's answer and says what to do (see
    /// `drain_rel`).
    pub fn step(&mut self, event: DrainEvent) -> (action: DrainAction)
        ensures
            drain_rel(*old(self), event, *final(self), action),
    {
        match event {
            DrainEvent::Received => {
                self.processed = true;
                self.remaining = self.remaining.saturating_sub(1);
                if !self.routing {
                    DrainAction::Drop
                } else if self.remaining == 0 {
                    DrainAction::RouteLast
                } else {
                    DrainAction::Route
                }
            },
            DrainEvent::Empty => if self.allow_wait && !self.waited {
                self.waited = true;
                DrainAction::Wait
            } else {
                DrainAction::Finish
            },
            DrainEvent::NoWakeup => DrainAction::Finish,
        }
    }
}

/// Each step of a drain keeps a turn within its budget and its one wait:
/// the budget never grows, a routed event spends one unit of it, an event
/// routed with budget left is not the last, an empty queue after the wait
/// ends the turn, and only a `Wait` marks the wait used.
pub proof fn lemma_drain_bounded(before: InputDrain, event: DrainEvent, after: InputDrain, action: DrainAction)
    requires
        drain_rel(before, event, after, action),
    ensures
        after.remaining <= before.remaining,
        (action == DrainAction::Route || action == DrainAction::RouteLast) ==> after.remaining + 1 == before.remaining || before.remaining == 0,
        action == DrainAction::Route ==> after.remaining > 0,
        before.waited && event == DrainEvent::Empty ==> action == DrainAction::Finish,
        after.waited ==> before.waited || action == DrainAction::Wait,
        after.routing == before.routing && after.allow_wait == before.allow_wait,
{
}


/// The letters of the three letter rows of a US keyboard, left to right:
/// key codes 16 to 25, 30 to 38 and 44 to 50.
pub open spec fn us_letter_at(key_code: u32) -> Option<char> {
    if 16 <= key_code <= 25 {
        Some(seq!['q', 'w', 'e', 'r', 't', 'y', 'u', 'i', 'o', 'p'][key_code - 16])
    } else if 30 <= key_code <= 38 {
        Some(seq!['a', 's', 'd', 'f', 'g', 'h', 'j', 'k', 'l'][key_code - 30])
    } else if 44 <= key_code <= 50 {
        Some(seq!['z', 'x', 'c', 'v', 'b', 'n', 'm'][key_code - 44])
    } else {
        None
    }
}

/// One letter key: it types its US letter in lower case, and with shift
/// the same letter 32 below.
proof fn lemma_letter_key(key_code: u32)
    requires
        us_letter_at(key_code) is Some,
    ensures
        'a' <= us_letter_at(key_code)->0 <= 'z',
        key_char(key_code, false) == us_letter_at(key_code),
        key_char(key_code, true) == Some(((us_letter_at(key_code)->0 as u32) - 32) as char),
{
    if key_code == 16 {
    } else if key_code == 17 {
    } else if key_code == 18 {
    } else if key_code == 19 {
    } else if key_code == 20 {
    } else if key_code == 21 {
    } else if key_code == 22 {
    } else if key_code == 23 {
    } else if key_code == 24 {
    } else if key_code == 25 {
    } else if key_code == 30 {
    } else if key_code == 31 {
    } else if key_code == 32 {
    } else if key_code == 33 {
    } else if key_code == 34 {
    } else if key_code == 35 {
    } else if key_code == 36 {
    } else if key_code == 37 {
    } else if key_code == 38 {
    } else if key_code == 44 {
    } else if key_code == 45 {
    } else if key_code == 46 {
    } else if key_code == 47 {
    } else if key_code == 48 {
    } else if key_code == 49 {
    } else if key_code == 50 {
    }
}

/// The letter keys type the US layout: each letter key gives its own
/// lower-case letter, and with shift the same letter in upper case (32
/// below it); two different letter keys never give the same character.
pub proof fn lemma_letter_keys(key_code: u32, other: u32, shift: bool)
    ensures
        us_letter_at(key_code) matches Some(l) ==> 'a' <= l <= 'z'
            && key_char(key_code, false) == Some(l)
            && key_char(key_code, true) == Some(((l as u32) - 32) as char),
        (us_letter_at(key_code) is Some && us_letter_at(other) is Some && key_code != other)
            ==> key_char(key_code, shift) != key_char(other, shift),
{
    if us_letter_at(key_code) is Some {
        lemma_letter_key(key_code);
    }
    if us_letter_at(key_code) is Some && us_letter_at(other) is Some && key_code != other {
        lemma_letter_key(other);
    }
}

} // verus!
