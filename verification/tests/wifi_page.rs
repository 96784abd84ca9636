use serviceos_runtime::abi::{WifiLinkState, WifiSecurity};
use serviceos_runtime::error::Error;
use serviceos_runtime::message::RawMessage;
use serviceos_runtime::types::{NetworkWifiSavedNetwork, NetworkWifiScanEntry};
use serviceos_runtime::wifi_page::{
    begin_join, begin_saved_remove, classify, error_name, finish_join, finish_saved_add, finish_saved_list, finish_scan,
    hint_lines, join_needs_psk, join_outcome_text, link_state_name, prompt_title, saved_outcome_text, saved_row_text,
    scan_row_text, security_tag, ssid_str, wifi_prompt_backspace, wifi_prompt_char, wifi_prompt_enter, WifiCall,
    WifiOpError, WifiPrompt, WifiUiState, WIFI_EDIT_MAX_BYTES, WIFI_SSID_MAX_BYTES,
};

fn scan_entry(security: WifiSecurity) -> NetworkWifiScanEntry {
    let mut entry = NetworkWifiScanEntry {
        bssid: [1, 2, 3, 4, 5, 6],
        channel: 6,
        rssi: -55,
        ssid_len: 4,
        ssid: [0; WIFI_SSID_MAX_BYTES],
        security,
    };
    entry.ssid[..4].copy_from_slice(b"home");
    entry
}

/// What a wireless call on a handle that names no channel answers: the
/// transport refuses it before any service sees it.
fn unreachable_reply() -> Result<RawMessage, Error> {
    Err(Error::InvalidArgument)
}

/// Performs a call the page asked for over a channel that is not there.
fn attempt_offline(state: &mut WifiUiState, call: Option<WifiCall>) {
    match call {
        Some(WifiCall::Join(_)) => finish_join(state, unreachable_reply()),
        Some(WifiCall::SavedAdd(_)) => finish_saved_add(state, unreachable_reply()),
        Some(WifiCall::SavedRemove(_)) => serviceos_runtime::wifi_page::finish_saved_remove(state, unreachable_reply()),
        None => {}
    }
}

#[test]
fn classify_maps_unsupported_and_transport_honestly() {
    assert_eq!(classify(Error::Unsupported), WifiOpError::Unsupported);
    assert_eq!(classify(Error::InvalidArgument), WifiOpError::Invalid);
    assert_eq!(classify(Error::BufferTooSmall), WifiOpError::Invalid);
    assert_eq!(classify(Error::NotFound), WifiOpError::Rejected);
    assert_eq!(classify(Error::Busy), WifiOpError::Rejected);
    assert_eq!(classify(Error::CapacityExceeded), WifiOpError::Rejected);
    assert_eq!(classify(Error::PermissionDenied), WifiOpError::Transport);
    assert_eq!(classify(Error::Unknown(99)), WifiOpError::Transport);
    assert_eq!(classify(Error::QueueEmpty), WifiOpError::Transport);
}

#[test]
fn link_and_security_names_are_honest() {
    assert_eq!(link_state_name(WifiLinkState::Down), "DOWN");
    assert_eq!(link_state_name(WifiLinkState::Scanning), "SCAN");
    assert_eq!(link_state_name(WifiLinkState::Authenticating), "AUTH");
    assert_eq!(link_state_name(WifiLinkState::Associating), "ASSOC");
    assert_eq!(link_state_name(WifiLinkState::Connected), "UP");
    assert_eq!(security_tag(WifiSecurity::Open), "OPN");
    assert_eq!(security_tag(WifiSecurity::Wpa2), "WPA2");
    assert_eq!(security_tag(WifiSecurity::Wpa3), "WPA3");
    assert_eq!(security_tag(WifiSecurity::Unknown), "SEC?");
}

#[test]
fn scan_row_renders_channel_rssi_security_ssid() {
    let row = scan_row_text(&scan_entry(WifiSecurity::Wpa2));
    assert_eq!(row, b" 6  -55DBM WPA2 home".to_vec());
}

#[test]
fn saved_row_renders_ssid_and_priority() {
    let mut record = NetworkWifiSavedNetwork { ssid_len: 4, ssid: [0; WIFI_SSID_MAX_BYTES], priority: 3 };
    record.ssid[..4].copy_from_slice(b"home");
    assert_eq!(saved_row_text(&record), b"home P3".to_vec());
}

#[test]
fn outcome_text_distinguishes_ok_from_failed() {
    assert_eq!(join_outcome_text(&Ok(WifiLinkState::Connected)), b"JOIN OK UP".to_vec());
    assert_eq!(join_outcome_text(&Err(WifiOpError::Unsupported)), b"JOIN FAILED UNSUPPORTED".to_vec());
    assert_eq!(saved_outcome_text(Some(Ok(())), None).unwrap(), b"SAVED ADD OK".to_vec());
    assert_eq!(saved_outcome_text(Some(Err(WifiOpError::Rejected)), None).unwrap(), b"SAVED ADD FAILED REFUSED".to_vec());
    assert_eq!(
        saved_outcome_text(None, Some(Err(WifiOpError::Transport))).unwrap(),
        b"SAVED REMOVE FAILED UNAVAILABLE".to_vec()
    );
    assert!(saved_outcome_text(None, None).is_none());
}

#[test]
fn hints_are_state_based_and_honest() {
    let hints = hint_lines(
        None,
        Some(WifiOpError::Unsupported),
        Some(WifiOpError::Unsupported),
        Some(WifiOpError::Unsupported),
    );
    assert_eq!(hints[0], "HINT: NO WIRELESS DEVICE");
    assert_eq!(hints[1], "HINT: RECHECK PSK OR SIGNAL");
    assert_eq!(hints[2], "HINT: SCAN NEEDS A DEVICE");

    let down = hint_lines(Some(WifiLinkState::Down), None, None, None);
    assert_eq!(down[0], "HINT: LINK DOWN - CHECK DEVICE");

    let scanning = hint_lines(Some(WifiLinkState::Scanning), None, None, None);
    assert_eq!(scanning[0], "HINT: SCANNING - WAIT");

    let auth = hint_lines(Some(WifiLinkState::Authenticating), None, None, None);
    assert_eq!(auth[0], "HINT: AUTH IN PROGRESS - WAIT");

    let up = hint_lines(Some(WifiLinkState::Connected), None, None, None);
    assert_eq!(up[0], "HINT: LINK UP");

    let other = hint_lines(None, Some(WifiOpError::Transport), None, None);
    assert_eq!(other[0], "HINT: STATUS UNAVAILABLE");

    let quiet = hint_lines(None, Some(WifiOpError::Unsupported), None, None);
    assert_eq!(quiet, ["HINT: NO WIRELESS DEVICE", "", ""]);
}

#[test]
fn prompt_chars_follow_stage_rules() {
    let mut state = WifiUiState::new();

    // No prompt: typing is a no-op.
    assert!(!wifi_prompt_char(&mut state, 'a'));

    state.prompt = Some(WifiPrompt::SavedPriority);
    assert!(wifi_prompt_char(&mut state, '3'));
    assert!(!wifi_prompt_char(&mut state, 'x'));
    assert!(!wifi_prompt_char(&mut state, ' '));
    assert_eq!(state.prompt_len, 1);

    state.prompt = Some(WifiPrompt::SavedSsid);
    assert!(wifi_prompt_char(&mut state, ' '));
    assert_eq!(state.prompt_edit[..2], *b"3 ");

    state.prompt = Some(WifiPrompt::JoinPsk);
    state.prompt_len = 0;
    state.prompt_edit = [0; WIFI_EDIT_MAX_BYTES];
    for ch in b"pass word 12" {
        assert!(wifi_prompt_char(&mut state, *ch as char));
    }
    assert_eq!(state.prompt_len, 12);
    assert_eq!(&state.prompt_edit[..12], b"pass word 12");

    // Cap: the key never exceeds 64 bytes.
    state.prompt_len = WIFI_EDIT_MAX_BYTES;
    assert!(!wifi_prompt_char(&mut state, 'z'));
}

#[test]
fn prompt_backspace_trims_and_ignores_empty() {
    let mut state = WifiUiState::new();
    assert!(!wifi_prompt_backspace(&mut state));
    state.prompt = Some(WifiPrompt::JoinPsk);
    assert!(wifi_prompt_char(&mut state, 'a'));
    assert!(wifi_prompt_backspace(&mut state));
    assert_eq!(state.prompt_len, 0);
    assert!(!wifi_prompt_backspace(&mut state));
}

#[test]
fn join_prompt_enter_attempts_join_and_closes() {
    let mut state = WifiUiState::new();
    state.scans[0] = scan_entry(WifiSecurity::Wpa2);
    state.scan_count = 1;
    state.selected_scan = 0;
    state.prompt = Some(WifiPrompt::JoinPsk);
    for ch in b"passphrase1" {
        let _ = wifi_prompt_char(&mut state, *ch as char);
    }
    // The transport fails on a missing channel, but the attempt is
    // recorded honestly and the prompt closes.
    let (changed, call) = wifi_prompt_enter(&mut state);
    assert!(changed);
    assert!(matches!(call, Some(WifiCall::Join(_))));
    attempt_offline(&mut state, call);
    assert!(state.prompt.is_none());
    assert_eq!(state.prompt_len, 0);
    assert!(state.join_outcome.is_some());
}

#[test]
fn saved_add_prompt_walks_three_stages() {
    let mut state = WifiUiState::new();
    state.prompt = Some(WifiPrompt::SavedSsid);

    // Empty ssid stays in the stage.
    let (changed, call) = wifi_prompt_enter(&mut state);
    assert!(!changed);
    assert!(call.is_none());
    assert_eq!(state.prompt, Some(WifiPrompt::SavedSsid));

    for ch in "cafe".chars() {
        assert!(wifi_prompt_char(&mut state, ch));
    }
    assert!(wifi_prompt_enter(&mut state).0);
    assert_eq!(state.prompt, Some(WifiPrompt::SavedPsk));
    assert_eq!(state.add_ssid_len, 4);
    assert_eq!(&state.add_ssid[..4], b"cafe");
    assert_eq!(state.prompt_len, 0);

    for ch in b"password12" {
        assert!(wifi_prompt_char(&mut state, *ch as char));
    }
    assert!(wifi_prompt_enter(&mut state).0);
    assert_eq!(state.prompt, Some(WifiPrompt::SavedPriority));
    assert_eq!(state.add_psk_len, 10);

    // Priority commit: digits parsed, the add attempted, the prompt ends.
    assert!(wifi_prompt_char(&mut state, '2'));
    let (changed, call) = wifi_prompt_enter(&mut state);
    assert!(changed);
    assert!(matches!(call, Some(WifiCall::SavedAdd(_))));
    attempt_offline(&mut state, call);
    assert!(state.prompt.is_none());
    assert!(state.saved_add_outcome.is_some());
    assert_eq!(state.add_ssid_len, 0);
    assert_eq!(state.add_psk_len, 0);
}

#[test]
fn saved_add_priority_rejects_non_digits_and_overflow() {
    let mut state = WifiUiState::new();
    state.prompt = Some(WifiPrompt::SavedPriority);
    state.add_ssid_len = 4;
    state.add_ssid[..4].copy_from_slice(b"cafe");
    state.add_psk_len = 10;
    state.add_psk[..10].copy_from_slice(b"password12");

    // Digits-only alphabet: letters and space never enter the buffer.
    assert!(wifi_prompt_char(&mut state, '2'));
    assert!(!wifi_prompt_char(&mut state, 'x'));
    assert!(!wifi_prompt_char(&mut state, ' '));
    assert!(wifi_prompt_char(&mut state, '5'));
    assert!(wifi_prompt_char(&mut state, '6'));

    // 256 overflows a byte: enter refuses and the stage stays open.
    let (changed, call) = wifi_prompt_enter(&mut state);
    assert!(!changed);
    assert!(call.is_none());
    assert_eq!(state.prompt, Some(WifiPrompt::SavedPriority));
    assert!(state.saved_add_outcome.is_none());

    // Back to a valid priority: enter commits (the transport fails on the
    // missing channel) and the prompt closes.
    assert!(wifi_prompt_backspace(&mut state));
    assert_eq!(state.prompt_len, 2);
    let (changed, call) = wifi_prompt_enter(&mut state);
    assert!(changed);
    attempt_offline(&mut state, call);
    assert!(state.prompt.is_none());
    assert!(state.saved_add_outcome.is_some());
}

#[test]
fn begin_join_routes_open_direct_and_secured_to_prompt() {
    let mut state = WifiUiState::new();

    // No selection: no-op.
    let (changed, call) = begin_join(&mut state);
    assert!(!changed);
    assert!(call.is_none());

    state.scans[0] = scan_entry(WifiSecurity::Open);
    state.scan_count = 1;
    // An open network joins directly (no prompt); the transport fails on the
    // missing channel but the attempt is recorded honestly.
    let (changed, call) = begin_join(&mut state);
    assert!(changed);
    assert!(matches!(call, Some(WifiCall::Join(_))));
    attempt_offline(&mut state, call);
    assert!(state.join_outcome.is_some());
    assert!(state.prompt.is_none());

    state.scans[1] = scan_entry(WifiSecurity::Wpa3);
    state.scan_count = 2;
    state.selected_scan = 1;
    state.join_outcome = None;
    let (changed, call) = begin_join(&mut state);
    assert!(changed);
    assert!(call.is_none());
    assert_eq!(state.prompt, Some(WifiPrompt::JoinPsk));
    assert_eq!(state.prompt_len, 0);
}

#[test]
fn only_open_networks_join_without_a_key() {
    assert!(!join_needs_psk(WifiSecurity::Open));
    assert!(join_needs_psk(WifiSecurity::Wpa2));
    assert!(join_needs_psk(WifiSecurity::Wpa3));
    assert!(join_needs_psk(WifiSecurity::Unknown));
}

#[test]
fn prompt_titles_and_error_names() {
    assert_eq!(prompt_title(WifiPrompt::JoinPsk), "JOIN PSK:");
    assert_eq!(prompt_title(WifiPrompt::SavedSsid), "SAVED SSID:");
    assert_eq!(prompt_title(WifiPrompt::SavedPsk), "SAVED PSK:");
    assert_eq!(prompt_title(WifiPrompt::SavedPriority), "SAVED PRIORITY:");
    assert_eq!(error_name(WifiOpError::Invalid), "INVALID");
    assert_eq!(error_name(WifiOpError::Rejected), "REFUSED");
}

#[test]
fn ssid_text_falls_back_to_question_mark() {
    let mut ssid = [0u8; 32];
    ssid[..4].copy_from_slice(b"home");
    assert_eq!(ssid_str(&ssid, 4), "home");
    assert_eq!(ssid_str(&ssid, 2), "ho");
    ssid[0] = 0xff;
    assert_eq!(ssid_str(&ssid, 4), "?");
    let long = [b'a'; 32];
    assert_eq!(ssid_str(&long, 40).len(), 32);
}

#[test]
fn scan_row_pads_short_fields_and_shows_positive_rssi() {
    let mut entry = scan_entry(WifiSecurity::Open);
    entry.channel = 149;
    entry.rssi = 5;
    assert_eq!(scan_row_text(&entry), b"149    5DBM OPN  home".to_vec());
}

#[test]
fn join_reply_outcomes_are_classified() {
    let mut state = WifiUiState::new();
    finish_join(&mut state, Err(Error::Unsupported));
    assert_eq!(state.join_outcome, Some(Err(WifiOpError::Unsupported)));
    // A reply under the wrong tag is malformed.
    finish_join(&mut state, Ok(RawMessage::empty(0)));
    assert_eq!(state.join_outcome, Some(Err(WifiOpError::Invalid)));
}

#[test]
fn scan_and_saved_list_outcomes_update_counts() {
    let mut state = WifiUiState::new();
    finish_scan(&mut state, Ok(5));
    assert_eq!(state.scan_count, 2);
    assert_eq!(state.scan_total, 5);
    assert_eq!(state.scan_error, None);
    finish_scan(&mut state, Err(Error::Busy));
    assert_eq!(state.scan_count, 0);
    assert_eq!(state.scan_error, Some(WifiOpError::Rejected));

    state.selected_saved = 1;
    finish_saved_list(&mut state, Err(Error::Unsupported));
    assert_eq!(state.saved_count, 0);
    assert_eq!(state.selected_saved, 0);
    finish_saved_list(&mut state, Ok(7));
    assert_eq!(state.saved_count, 2);
    assert_eq!(state.saved_total, 7);
}

#[test]
fn remove_with_an_empty_list_does_nothing() {
    let mut state = WifiUiState::new();
    assert!(begin_saved_remove(&mut state).is_none());
    assert!(state.saved_remove_outcome.is_none());
    state.saved[0] = NetworkWifiSavedNetwork { ssid_len: 3, ssid: [b'n'; 32], priority: 1 };
    state.saved_count = 1;
    state.selected_saved = 1;
    assert!(matches!(begin_saved_remove(&mut state), Some(WifiCall::SavedRemove(_))));
}
