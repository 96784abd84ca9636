use serviceos_runtime::abi::{NetworkListenPortKind, PacketInterfaceLinkState, PermissionPolicyState, WifiSecurity};
use serviceos_runtime::backup::{perform_delete, perform_export, perform_restore_apply, perform_restore_dry_run, BackupUiState};
use serviceos_runtime::error::{Error, Result};
use serviceos_runtime::message::{RawMessage, INVALID_HANDLE};
use serviceos_runtime::settings::{link_state_name, listen_port_kind_name};
use serviceos_runtime::settings_app::{
    append_text_input, begin_ping, commit_hostname, finish_ping, handle_key_down, handle_network_pointer_down,
    handle_pointer_down, handle_wifi_pointer_down, run_ping, select_next_policy, AppState, SettingsCommand, SettingsPage,
    NET_HOSTNAME_FIELD_X0, NET_HOSTNAME_FIELD_Y0, NET_PING_RUN_X0, NET_PING_RUN_Y0, TAB_WIFI_X0, TAB_Y0,
    WIFI_ACTION_Y0, WIFI_ADD_BTN_X0, WIFI_BTN_Y0, WIFI_JOIN_BTN_X0, WIFI_SCAN_BTN_X0, WIFI_SCAN_ROW_Y0,
};
use serviceos_runtime::types::NetworkWifiScanEntry;
use serviceos_runtime::wifi_page::{
    finish_join, finish_saved_add, finish_saved_list, finish_saved_remove, finish_scan, wifi_prompt_char, WifiCall,
    WifiOpError, WifiPrompt, WIFI_SSID_MAX_BYTES,
};

fn app_state() -> AppState {
    AppState::new(320, 300, true)
}

/// What any round trip over a handle that names no channel answers: the
/// transport refuses it before a service sees it.
fn unreachable() -> Result<RawMessage> {
    Err(Error::InvalidArgument)
}

/// Performs the call a handler asked for the way the app does, over
/// service handles that name no channel.
fn perform_offline(state: &mut AppState, command: SettingsCommand) {
    match command {
        SettingsCommand::Nothing => {}
        SettingsCommand::WifiScan => finish_scan(&mut state.wifi, Err(Error::InvalidArgument)),
        SettingsCommand::WifiReloadSaved => finish_saved_list(&mut state.wifi, Err(Error::InvalidArgument)),
        SettingsCommand::Wifi { call, reload_saved } => {
            match call {
                WifiCall::Join(_) => finish_join(&mut state.wifi, unreachable()),
                WifiCall::SavedAdd(_) => finish_saved_add(&mut state.wifi, unreachable()),
                WifiCall::SavedRemove(_) => finish_saved_remove(&mut state.wifi, unreachable()),
            }
            if reload_saved {
                finish_saved_list(&mut state.wifi, Err(Error::InvalidArgument));
            }
        }
        SettingsCommand::BackupEnter => {
            let _ = serviceos_runtime::backup::on_page_enter(INVALID_HANDLE, &mut state.backup);
        }
        SettingsCommand::BackupExport => {
            let _ = perform_export(&mut state.backup, 7, None);
            let _ = perform_export(&mut state.backup, 7, Some(unreachable()));
        }
        SettingsCommand::BackupRestoreDryRun => {
            if perform_restore_dry_run(&mut state.backup, 7, None).is_some() {
                let _ = perform_restore_dry_run(&mut state.backup, 7, Some(unreachable()));
            }
        }
        SettingsCommand::BackupRestoreApply => {
            if perform_restore_apply(&mut state.backup, 7, None).is_some() {
                let _ = perform_restore_apply(&mut state.backup, 7, Some(unreachable()));
            }
        }
        SettingsCommand::BackupDelete => {
            if perform_delete(&mut state.backup, None).is_some() {
                let _ = perform_delete(&mut state.backup, Some(unreachable()));
            }
        }
        SettingsCommand::Ping => {
            // The interface status cannot be read, so there is no target.
            if begin_ping(state, None).is_some() {
                finish_ping(state, unreachable());
            }
        }
        SettingsCommand::PlayTone
        | SettingsCommand::SelectNextPolicy
        | SettingsCommand::SetPolicy(_)
        | SettingsCommand::DecideRuntime(_)
        | SettingsCommand::CommitHostname(_) => {}
    }
}

fn key(state: &mut AppState, code: u32) -> bool {
    let (changed, command) = handle_key_down(state, code);
    perform_offline(state, command);
    changed
}

fn wifi_pointer(state: &mut AppState, x: i32, y: i32) -> bool {
    let (changed, command) = handle_wifi_pointer_down(state, x, y);
    perform_offline(state, command);
    changed
}

#[test]
fn tab_key_cycles_all_five_pages() {
    let mut state = app_state();
    assert_eq!(state.page, SettingsPage::System);
    let _ = key(&mut state, 15);
    assert_eq!(state.page, SettingsPage::Security);
    let _ = key(&mut state, 15);
    assert_eq!(state.page, SettingsPage::Network);
    let _ = key(&mut state, 15);
    assert_eq!(state.page, SettingsPage::Wifi);
    let _ = key(&mut state, 15);
    assert_eq!(state.page, SettingsPage::Backup);
    let _ = key(&mut state, 15);
    assert_eq!(state.page, SettingsPage::System);
}

#[test]
fn tab_key_leaves_editing_state() {
    let mut state = app_state();
    state.page = SettingsPage::Network;
    state.editing_hostname = true;
    let _ = key(&mut state, 15);
    assert!(!state.editing_hostname);
    assert_eq!(state.page, SettingsPage::Wifi);
    state.editing_hostname = true;
    let _ = key(&mut state, 15);
    assert!(!state.editing_hostname);
    assert_eq!(state.page, SettingsPage::Backup);
    state.editing_hostname = true;
    let _ = key(&mut state, 15);
    assert!(!state.editing_hostname);
    assert_eq!(state.page, SettingsPage::System);
}

#[test]
fn hostname_typing_backspace_and_commit_via_invalid_handle() {
    let mut state = app_state();
    state.page = SettingsPage::Network;
    state.editing_hostname = true;
    for ch in b"gw-x" {
        let _ = append_text_input(&mut state, *ch as u64);
    }
    assert_eq!(state.hostname_edit_len, 4);
    assert_eq!(&state.hostname_edit[..4], b"gw-x");

    // Backspace then retype.
    let _ = key(&mut state, 14);
    assert_eq!(state.hostname_edit_len, 3);
    let _ = append_text_input(&mut state, b'9' as u64);
    assert_eq!(&state.hostname_edit[..4], b"gw-9");

    // Enter commits; the set request fails on the missing channel, and the
    // editor closes either way.
    let (_, command) = handle_key_down(&mut state, 28);
    assert!(matches!(command, SettingsCommand::CommitHostname(_)));
    assert!(!state.editing_hostname);

    // Esc cancels an edit without committing.
    state.editing_hostname = true;
    let _ = key(&mut state, 1);
    assert!(!state.editing_hostname);
}

#[test]
fn empty_hostname_commit_is_rejected_without_transport() {
    let mut state = app_state();
    state.page = SettingsPage::Network;
    state.hostname_edit_len = 0;
    assert!(commit_hostname(&state).is_none());
}

#[test]
fn network_tab_pointer_focuses_hostname_field() {
    let mut state = app_state();
    state.page = SettingsPage::Network;
    let (changed, _) = handle_network_pointer_down(&mut state, NET_HOSTNAME_FIELD_X0 + 4, NET_HOSTNAME_FIELD_Y0 + 4);
    assert!(changed);
    assert!(state.editing_hostname);

    // Second click inside the field keeps the typed text.
    state.hostname_edit_len = 2;
    let _ = handle_network_pointer_down(&mut state, NET_HOSTNAME_FIELD_X0 + 4, NET_HOSTNAME_FIELD_Y0 + 4);
    assert_eq!(state.hostname_edit_len, 2);
}

#[test]
fn ping_button_without_service_degrades_to_failed() {
    let mut state = app_state();
    state.page = SettingsPage::Network;
    let (changed, command) = handle_network_pointer_down(&mut state, NET_PING_RUN_X0 + 4, NET_PING_RUN_Y0 + 4);
    assert!(changed);
    assert!(matches!(command, SettingsCommand::Ping));
    perform_offline(&mut state, command);
    assert!(state.ping_failed);
    assert!(state.ping_stats.is_none());

    // Clicking elsewhere on the page only closes the editor.
    state.editing_hostname = true;
    let (_, command) = handle_network_pointer_down(&mut state, 4, 4);
    perform_offline(&mut state, command);
    assert!(!state.editing_hostname);
}

fn wifi_state() -> AppState {
    let mut state = app_state();
    state.page = SettingsPage::Wifi;
    state
}

fn secured_scan() -> NetworkWifiScanEntry {
    let mut entry = NetworkWifiScanEntry {
        bssid: [9; 6],
        channel: 11,
        rssi: -40,
        ssid_len: 4,
        ssid: [0; WIFI_SSID_MAX_BYTES],
        security: WifiSecurity::Wpa2,
    };
    entry.ssid[..4].copy_from_slice(b"cafe");
    entry
}

#[test]
fn wifi_tab_pointer_enters_page_and_loads_saved_list() {
    let mut state = wifi_state();
    let (changed, command) = handle_pointer_down(&mut state, TAB_WIFI_X0 + 4, TAB_Y0 + 4);
    assert!(changed);
    assert!(matches!(command, SettingsCommand::WifiReloadSaved));
    perform_offline(&mut state, command);
    assert_eq!(state.page, SettingsPage::Wifi);
    // Without a backend the saved list stays empty.
    assert_eq!(state.wifi.saved_count, 0);
}

#[test]
fn wifi_pointer_selects_scan_and_saved_rows() {
    let mut state = wifi_state();
    state.wifi.scans[0] = secured_scan();
    state.wifi.scan_count = 1;

    // Row 0 hitbox selects the scan row.
    let changed = wifi_pointer(&mut state, 40, WIFI_SCAN_ROW_Y0 + 4);
    assert!(changed);
    assert_eq!(state.wifi.selected_scan, 0);

    // Below the rows: no selection change, still handled.
    let _ = wifi_pointer(&mut state, 40, WIFI_SCAN_ROW_Y0 + 40);
    assert_eq!(state.wifi.selected_scan, 0);
}

#[test]
fn wifi_join_button_routes_secured_to_psk_prompt() {
    let mut state = wifi_state();
    state.wifi.scans[0] = secured_scan();
    state.wifi.scan_count = 1;

    let changed = wifi_pointer(&mut state, WIFI_JOIN_BTN_X0 + 4, WIFI_BTN_Y0 + 4);
    assert!(changed);
    assert_eq!(state.wifi.prompt, Some(WifiPrompt::JoinPsk));
    assert_eq!(state.wifi.prompt_len, 0);

    // Typing lands in the prompt buffer via the text path.
    for ch in b"password12" {
        let _ = append_text_input(&mut state, *ch as u64);
    }
    assert_eq!(state.wifi.prompt_len, 10);

    // Enter attempts the join (the missing channel makes the transport
    // report InvalidArgument) and closes the prompt with the outcome.
    let _ = key(&mut state, 28);
    assert!(state.wifi.prompt.is_none());
    assert_eq!(state.wifi.join_outcome, Some(Err(WifiOpError::Invalid)));
}

#[test]
fn wifi_join_button_open_network_skips_prompt() {
    let mut state = wifi_state();
    state.wifi.scans[0] = secured_scan();
    state.wifi.scans[0].security = WifiSecurity::Open;
    state.wifi.scan_count = 1;

    let _ = wifi_pointer(&mut state, WIFI_JOIN_BTN_X0 + 4, WIFI_BTN_Y0 + 4);
    assert!(state.wifi.prompt.is_none());
    assert!(state.wifi.join_outcome.is_some());
}

#[test]
fn wifi_saved_add_button_opens_prompt_and_esc_cancels() {
    let mut state = wifi_state();

    let _ = wifi_pointer(&mut state, WIFI_ADD_BTN_X0 + 4, WIFI_ACTION_Y0 + 4);
    assert_eq!(state.wifi.prompt, Some(WifiPrompt::SavedSsid));

    // Esc cancels the whole flow.
    let _ = key(&mut state, 1);
    assert!(state.wifi.prompt.is_none());
    assert_eq!(state.wifi.prompt_len, 0);
}

#[test]
fn wifi_saved_add_walks_ssid_then_psk_stages() {
    let mut state = wifi_state();
    state.wifi.prompt = Some(WifiPrompt::SavedSsid);

    for ch in b"net" {
        let _ = append_text_input(&mut state, *ch as u64);
    }
    let _ = key(&mut state, 28);
    assert_eq!(state.wifi.prompt, Some(WifiPrompt::SavedPsk));
    assert_eq!(state.wifi.add_ssid_len, 3);

    for ch in b"password12" {
        let _ = append_text_input(&mut state, *ch as u64);
    }
    let _ = key(&mut state, 28);
    assert_eq!(state.wifi.prompt, Some(WifiPrompt::SavedPriority));

    // Empty priority means 0; enter commits the add (the transport fails
    // on the missing channel) and reloads the saved list.
    let (_, command) = handle_key_down(&mut state, 28);
    assert!(matches!(command, SettingsCommand::Wifi { call: WifiCall::SavedAdd(_), reload_saved: true }));
    perform_offline(&mut state, command);
    assert!(state.wifi.prompt.is_none());
    assert!(state.wifi.saved_add_outcome.is_some());
}

#[test]
fn wifi_prompt_is_modal_over_underlying_buttons() {
    let mut state = wifi_state();
    state.wifi.prompt = Some(WifiPrompt::JoinPsk);

    // A click on the scan button while the prompt is open: outside the
    // overlay, so the prompt closes and the button does not fire.
    let _ = wifi_pointer(&mut state, WIFI_SCAN_BTN_X0 + 4, WIFI_BTN_Y0 + 4);
    assert!(state.wifi.prompt.is_none());
    assert_eq!(state.wifi.scan_count, 0);
    assert_eq!(state.wifi.scan_error, None);
}

#[test]
fn wifi_backspace_edits_prompt_via_key_path() {
    let mut state = wifi_state();
    state.wifi.prompt = Some(WifiPrompt::JoinPsk);
    let _ = append_text_input(&mut state, b'a' as u64);
    let _ = append_text_input(&mut state, b'b' as u64);
    assert_eq!(state.wifi.prompt_len, 2);
    let _ = key(&mut state, 14);
    assert_eq!(state.wifi.prompt_len, 1);
    assert_eq!(state.wifi.prompt_edit[..1], *b"a");
}

#[test]
fn wifi_arrow_keys_move_scan_selection() {
    let mut state = wifi_state();
    state.wifi.scans[0] = secured_scan();
    state.wifi.scans[1] = secured_scan();
    state.wifi.scan_count = 2;

    let _ = key(&mut state, 108);
    assert_eq!(state.wifi.selected_scan, 1);
    let _ = key(&mut state, 108);
    assert_eq!(state.wifi.selected_scan, 1);
    let _ = key(&mut state, 103);
    assert_eq!(state.wifi.selected_scan, 0);
    let _ = key(&mut state, 103);
    assert_eq!(state.wifi.selected_scan, 0);
}

#[test]
fn wifi_scan_and_join_on_invalid_handle_stay_honest() {
    let mut state = wifi_state();
    let _ = wifi_pointer(&mut state, WIFI_SCAN_BTN_X0 + 4, WIFI_BTN_Y0 + 4);
    // The scan fails on the missing channel: the failure is recorded and
    // no row is fabricated.
    assert_eq!(state.wifi.scan_count, 0);
    assert_eq!(state.wifi.scan_total, 0);
    assert_eq!(state.wifi.scan_error, Some(WifiOpError::Invalid));

    state.wifi.scans[0] = secured_scan();
    state.wifi.scan_count = 1;
    state.wifi.prompt = Some(WifiPrompt::JoinPsk);
    for ch in b"password12" {
        let _ = wifi_prompt_char(&mut state.wifi, *ch as char);
    }
    let _ = key(&mut state, 28);
    assert_eq!(state.wifi.join_outcome, Some(Err(WifiOpError::Invalid)));
}

#[test]
fn link_and_port_names_are_honest() {
    assert_eq!(link_state_name(PacketInterfaceLinkState::Up), "UP");
    assert_eq!(link_state_name(PacketInterfaceLinkState::Down), "DOWN");
    assert_eq!(listen_port_kind_name(NetworkListenPortKind::TcpListener), "TCP");
    assert_eq!(listen_port_kind_name(NetworkListenPortKind::UdpInternal), "UDP-I");
    assert_eq!(listen_port_kind_name(NetworkListenPortKind::Unknown), "?");
}

#[test]
fn run_ping_on_invalid_handle_degrades_to_failed_flag() {
    let mut state = app_state();
    state.page = SettingsPage::Network;
    let request = run_ping(&mut state, 0x0a00_0202);
    assert!(request.is_some());
    finish_ping(&mut state, unreachable());
    assert!(state.ping_failed);
    assert!(state.ping_stats.is_none());
    assert_eq!(&state.ping_target[..state.ping_target_len], b"10.0.2.2");
}

#[test]
fn note_editor_takes_visible_text_and_newline_closes_it() {
    let mut state = app_state();
    assert!(!append_text_input(&mut state, b'a' as u64));
    state.editing_note = true;
    assert!(append_text_input(&mut state, b'h' as u64));
    assert!(append_text_input(&mut state, b' ' as u64));
    assert!(!append_text_input(&mut state, 0xe9));
    assert_eq!(&state.note[..state.note_len], b"h ");
    for _ in 0..30 {
        let _ = append_text_input(&mut state, b'x' as u64);
    }
    assert_eq!(state.note_len, 24);
    let _ = key(&mut state, 14);
    assert_eq!(state.note_len, 23);
    assert!(append_text_input(&mut state, b'\n' as u64));
    assert!(!state.editing_note);
}

#[test]
fn policy_selection_moves_within_the_listed_policies() {
    let mut state = app_state();
    state.page = SettingsPage::Security;
    let (changed, command) = handle_key_down(&mut state, 108);
    assert!(!changed);
    assert!(matches!(command, SettingsCommand::SelectNextPolicy));
    assert!(select_next_policy(&mut state, 3));
    assert!(select_next_policy(&mut state, 3));
    assert!(!select_next_policy(&mut state, 3));
    assert_eq!(state.selected_policy_index, 2);
    assert!(key(&mut state, 103));
    assert_eq!(state.selected_policy_index, 1);
    assert!(!select_next_policy(&mut state, 0));
}

#[test]
fn backup_tab_enters_the_page_and_explains_the_missing_route() {
    let mut state = app_state();
    state.backup = BackupUiState::new();
    let (changed, command) = handle_pointer_down(&mut state, 410, TAB_Y0 + 4);
    assert!(changed);
    assert!(matches!(command, SettingsCommand::BackupEnter));
    perform_offline(&mut state, command);
    assert_eq!(state.page, SettingsPage::Backup);
    // Without a route, clicks on the page are inert.
    let (changed, command) = handle_pointer_down(&mut state, 20, 200);
    assert!(!changed);
    assert!(matches!(command, SettingsCommand::Nothing));
}

#[test]
fn system_page_note_field_and_audio_button() {
    let mut state = app_state();
    let (changed, _) = handle_pointer_down(&mut state, 20, 120);
    assert!(changed);
    assert!(state.editing_note);
    let (_, command) = handle_pointer_down(&mut state, 20, 150);
    assert!(matches!(command, SettingsCommand::PlayTone));
    assert!(!state.editing_note);
}

#[test]
fn security_page_buttons_ask_for_their_calls() {
    let mut state = app_state();
    state.page = SettingsPage::Security;
    let (_, command) = handle_pointer_down(&mut state, 130, 150);
    assert!(matches!(command, SettingsCommand::SetPolicy(PermissionPolicyState::Allowed)));
    let (_, command) = handle_pointer_down(&mut state, 200, 180);
    assert!(matches!(command, SettingsCommand::DecideRuntime(PermissionPolicyState::Blocked)));
    let (_, command) = handle_pointer_down(&mut state, 70, 150);
    assert!(matches!(command, SettingsCommand::SelectNextPolicy));
}
