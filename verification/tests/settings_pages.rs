use serviceos_runtime::abi::{
    AppControlTag, AppKeyAction, AudioEndpointBackend, AudioEndpointDirection, AudioEndpointState, AudioStreamState,
    LogEvent, NetworkConfigMode, NetworkConfigState, NetworkListenPortKind, PacketInterfaceBackend,
    PacketInterfaceLinkState, PermissionPolicyState, RuntimeEnvState, SecurityAuditKind, ServiceImageId, WifiLinkState,
};
use serviceos_runtime::decode::event_from_word;
use serviceos_runtime::error::Error;
use serviceos_runtime::message::RawMessage;
use serviceos_runtime::security_page::PendingRuntime;
use serviceos_runtime::settings_app::{
    control_step, settings_pcm_stream_info, AppState, ControlStep, SettingsCommand, SettingsPage, KEY_TAB,
};
use serviceos_runtime::settings_pages::{
    network_page_lines, policy_view_index, security_page_lines, system_page_lines, wifi_page_lines,
};
use serviceos_runtime::types::{
    AudioEndpointStatusInfo, NetworkDiagPingStats, NetworkDiscoveryPeer, NetworkFirewallSummary,
    NetworkInterfaceStatusInfo, NetworkListenPort, NetworkNeighborEntry, NetworkWifiStatus, RuntimeAuditInfo,
    SecurityAppPolicyInfo, SecurityAuditInfo,
};
use serviceos_runtime::wifi_page::{finish_scan, WifiUiState};

fn text(lines: &[Vec<u8>]) -> Vec<String> {
    lines.iter().map(|l| String::from_utf8(l.clone()).expect("utf8 line")).collect()
}

fn interface() -> NetworkInterfaceStatusInfo {
    NetworkInterfaceStatusInfo {
        index: 0,
        backend: PacketInterfaceBackend::VirtioPci,
        link_state: PacketInterfaceLinkState::Up,
        mtu: 1500,
        config_mode: NetworkConfigMode::Static,
        config_state: NetworkConfigState::Configured,
        address: 0x0a00_020f,
        prefix_len: 24,
        gateway: 0x0a00_0202,
        dns_server: 0x0a00_0203,
        mac: [0x52, 0x54, 0x00, 0x12, 0x34, 0x56],
        rx_packets: 0,
        tx_packets: 0,
        dropped_packets: 0,
        resolver_hits: 7,
        resolver_misses: 2,
    }
}

fn name_bytes<const N: usize>(name: &str) -> [u8; N] {
    let mut out = [0u8; N];
    out[..name.len()].copy_from_slice(name.as_bytes());
    out
}

#[test]
fn network_page_lists_every_status_line() {
    let app = AppState::new(320, 300, true);
    let firewall = NetworkFirewallSummary {
        rule_count: 3,
        default_inbound_allow: false,
        inbound_denied_total: 5,
        outbound_denied_total: 1,
    };
    let neighbors = [NetworkNeighborEntry { address: 0x0a00_0202, mac: [0x52, 0x54, 0x00, 0x12, 0x35, 0x02] }];
    let ports = [
        NetworkListenPort { kind: NetworkListenPortKind::TcpListener, port: 80 },
        NetworkListenPort { kind: NetworkListenPortKind::UdpClient, port: 53 },
    ];
    let peers = [NetworkDiscoveryPeer { address: 0x0a00_0209, name_len: 4, name: name_bytes::<15>("node"), age_ms: 0 }];
    let lines = network_page_lines(&app, Some(interface()), b"svc-os", Some(firewall), &neighbors, &ports, &peers);
    assert_eq!(
        text(&lines),
        vec![
            "NETWORK STATUS",
            "ETH0 UP 10.0.2.15/24",
            "GW 10.0.2.2 DNS 10.0.2.3",
            "FW RULES 3 IN DENY",
            "FW DENY IN 5 OUT 1",
            "RESOLVER HIT 7 MISS 2",
            "PING",
            "PING PRESS RUN",
            "MIN - MAX - AVG -",
            "JIT - LOSS -",
            "10.0.2.2 52:54:00:12:35:02",
            "PORTS 2: TCP 80 UDP 53",
            "PEERS 1: node 10.0.2.9",
            "HOSTNAME",
            "svc-os",
        ]
    );
}

#[test]
fn network_page_without_services_says_unavailable() {
    let app = AppState::new(320, 300, true);
    let lines = network_page_lines(&app, None, b"", None, &[], &[], &[]);
    assert_eq!(
        text(&lines),
        vec![
            "NETWORK STATUS",
            "ETH0 UNAVAILABLE",
            "GW UNAVAILABLE",
            "FW UNAVAILABLE",
            "FW DENY -",
            "RESOLVER UNAVAILABLE",
            "PING",
            "PING PRESS RUN",
            "MIN - MAX - AVG -",
            "JIT - LOSS -",
            "PORTS UNAVAILABLE",
            "PEERS UNAVAILABLE",
            "HOSTNAME",
            "HOSTNAME UNAVAILABLE",
        ]
    );
}

#[test]
fn network_page_shows_ping_outcome() {
    let mut app = AppState::new(320, 300, true);
    app.ping_failed = true;
    let failed = network_page_lines(&app, None, b"", None, &[], &[], &[]);
    assert_eq!(text(&failed)[7..10].to_vec(), vec!["PING FAILED", "MIN - MAX - AVG -", "JIT - LOSS -"]);

    app.ping_failed = false;
    app.ping_target[..8].copy_from_slice(b"10.0.2.2");
    app.ping_target_len = 8;
    app.ping_stats = Some(NetworkDiagPingStats {
        resolved_address: 0x0a00_0202,
        sent: 4,
        received: 3,
        min_ms: 1,
        max_ms: 9,
        avg_ms: 4,
        jitter_ms: 2,
        loss_permil: 250,
    });
    let done = network_page_lines(&app, None, b"", None, &[], &[], &[]);
    assert_eq!(text(&done)[7..10].to_vec(), vec!["PING 10.0.2.2 3/4 RX", "MIN 1MS MAX 9MS AVG 4MS", "JIT 2MS LOSS 25.0%"]);
}

#[test]
fn network_page_shows_hostname_being_edited() {
    let mut app = AppState::new(320, 300, true);
    app.editing_hostname = true;
    app.hostname_edit[..3].copy_from_slice(b"box");
    app.hostname_edit_len = 3;
    let lines = network_page_lines(&app, None, b"svc-os", None, &[], &[], &[]);
    assert_eq!(text(&lines).last().map(|s| s.as_str()), Some("box"));
}

#[test]
fn system_page_lists_settings_address_note_and_audio() {
    let mut app = AppState::new(320, 300, true);
    app.note[..2].copy_from_slice(b"hi");
    app.note_len = 2;
    let endpoint = AudioEndpointStatusInfo {
        index: 0,
        backend: AudioEndpointBackend::PcSpeaker,
        direction: AudioEndpointDirection::Output,
        state: AudioEndpointState::Active,
        capabilities: 0,
        nominal_rate_hz: 0,
        channels: 1,
        min_frequency_hz: 20,
        max_frequency_hz: 20000,
        current_frequency_hz: 440,
        play_count: 3,
    };
    let mut playing = settings_pcm_stream_info();
    playing.state = AudioStreamState::Active;
    let closed = settings_pcm_stream_info();
    let lines = system_page_lines(&app, 2, 30, Some(interface()), Some(endpoint), &[playing, closed]);
    assert_eq!(
        text(&lines),
        vec![
            "SYSTEM OVERVIEW",
            "LOG MINIMUM 2",
            "HEARTBEAT 30",
            "IP 10.0.2.15",
            "GATEWAY 10.0.2.2",
            "NOTE",
            "hi",
            "AUDIO ACTIVE 440HZ 3 PCM 1/2",
        ]
    );
}

#[test]
fn system_page_without_services_says_unavailable() {
    let app = AppState::new(320, 300, true);
    let lines = system_page_lines(&app, 0, 0, None, None, &[]);
    assert_eq!(
        text(&lines),
        vec![
            "SYSTEM OVERVIEW",
            "LOG MINIMUM 0",
            "HEARTBEAT 0",
            "IP UNAVAILABLE",
            "GATEWAY UNAVAILABLE",
            "NOTE",
            "",
            "AUDIO UNAVAILABLE PCM 0/0",
        ]
    );
}

#[test]
fn policy_view_index_clamps_to_the_list() {
    assert_eq!(policy_view_index(0, 3), 0);
    assert_eq!(policy_view_index(3, 1), 1);
    assert_eq!(policy_view_index(2, 5), 1);
}

#[test]
fn security_page_lists_policy_runtime_and_audit() {
    let policy = SecurityAppPolicyInfo {
        image_id: ServiceImageId::SettingsApp,
        permissions: 0x11,
        policy: PermissionPolicyState::Allowed,
        sensitive_permissions: 0,
        name_len: 8,
        name: name_bytes::<64>("settings"),
    };
    let pending = PendingRuntime { env_id: 3, state: RuntimeEnvState::PendingApproval, capabilities: 0x3 };
    let audit = RuntimeAuditInfo {
        sequence: 7,
        kind: SecurityAuditKind::RuntimeApprovalRequested,
        env_id: 3,
        capabilities: 0x3,
        detail: 0,
    };
    let lines = security_page_lines(2, 5, Some(policy), true, Some(pending), None, Some(audit));
    assert_eq!(
        text(&lines),
        vec![
            "SECURITY REVIEW",
            "APP settings (2/2)",
            "POLICY allowed",
            "PERMS config,network",
            "SENSITIVE -",
            "APP POLICY",
            "RUNTIME env3 pending-approval file-read,network",
            "RUNTIME ACTIONS",
            "AUDIT runtime#7 approval-requested env3",
        ]
    );
}

#[test]
fn security_page_without_policies_or_runtime() {
    let lines = security_page_lines(0, 0, None, false, None, None, None);
    assert_eq!(
        text(&lines),
        vec![
            "SECURITY REVIEW",
            "APP no registered policies",
            "POLICY unavailable",
            "PERMS -",
            "SENSITIVE -",
            "APP POLICY",
            "RUNTIME service not installed",
            "RUNTIME ACTIONS",
            "AUDIT no recent security events",
        ]
    );
}

#[test]
fn security_page_falls_back_to_native_audit() {
    let native = SecurityAuditInfo {
        sequence: 4,
        kind: SecurityAuditKind::LaunchDenied,
        subject_image_id: ServiceImageId::FilesApp,
        policy: PermissionPolicyState::Blocked,
        detail: 0,
    };
    let lines = security_page_lines(0, 0, None, true, None, Some(native), None);
    let t = text(&lines);
    assert_eq!(t[6], "RUNTIME no pending or denied environments");
    assert_eq!(t[8], "AUDIT native#4 launch-denied files");
}

#[test]
fn wifi_page_without_device() {
    let w = WifiUiState::new();
    let lines = wifi_page_lines(&w, Err(Error::Unsupported));
    assert_eq!(
        text(&lines),
        vec![
            "WI-FI",
            "",
            "DEVICE: NO WIRELESS DEVICE",
            "SCAN PRESS SCAN",
            "SAVED",
            "SAVED UNAVAILABLE",
            "HINT: NO WIRELESS DEVICE",
        ]
    );
}

#[test]
fn wifi_page_connected_after_unsupported_scan() {
    let mut w = WifiUiState::new();
    finish_scan(&mut w, Err(Error::Unsupported));
    let status = NetworkWifiStatus {
        link_state: WifiLinkState::Connected,
        backend_present: true,
        ssid_len: 4,
        ssid: name_bytes::<32>("home"),
    };
    let lines = wifi_page_lines(&w, Ok(status));
    assert_eq!(
        text(&lines),
        vec![
            "WI-FI",
            "WLAN UP SSID home",
            "DEVICE PRESENT",
            "SCAN FAILED UNSUPPORTED",
            "SAVED",
            "SAVED UNAVAILABLE",
            "HINT: LINK UP",
            "HINT: SCAN NEEDS A DEVICE",
        ]
    );
}

#[test]
fn wifi_page_status_refused() {
    let w = WifiUiState::new();
    let t = text(&wifi_page_lines(&w, Err(Error::Busy)));
    assert_eq!(t[2], "DEVICE UNAVAILABLE");
    assert_eq!(t.last().map(|s| s.as_str()), Some("HINT: STATUS UNAVAILABLE"));
}

fn control(tag: AppControlTag, words: &[u64]) -> RawMessage {
    let mut m = RawMessage::empty(tag.code());
    m.words[..words.len()].copy_from_slice(words);
    m.word_count = words.len() as u32;
    m
}

#[test]
fn control_step_focus_and_resize() {
    let mut app = AppState::new(320, 300, true);
    let out = control_step(&mut app, &control(AppControlTag::FocusChanged, &[0]));
    assert!(matches!(out, ControlStep::Continue { changed: true, command: SettingsCommand::Nothing }));
    assert!(!app.focused);
    let out = control_step(&mut app, &control(AppControlTag::Resize, &[640, 480]));
    assert!(matches!(out, ControlStep::Continue { changed: true, command: SettingsCommand::Nothing }));
    assert_eq!((app.width, app.height), (640, 480));
}

#[test]
fn control_step_close_exits() {
    let mut app = AppState::new(320, 300, true);
    assert!(matches!(control_step(&mut app, &control(AppControlTag::Close, &[])), ControlStep::Exit));
}

#[test]
fn control_step_key_press_switches_tab_and_release_is_ignored() {
    let mut app = AppState::new(320, 300, true);
    let up = control(AppControlTag::Key, &[AppKeyAction::Up.code() as u64, KEY_TAB as u64]);
    let out = control_step(&mut app, &up);
    assert!(matches!(out, ControlStep::Continue { changed: false, command: SettingsCommand::Nothing }));
    assert_eq!(app.page, SettingsPage::System);
    let down = control(AppControlTag::Key, &[AppKeyAction::Down.code() as u64, KEY_TAB as u64]);
    let out = control_step(&mut app, &down);
    assert!(matches!(out, ControlStep::Continue { changed: true, command: SettingsCommand::Nothing }));
    assert_eq!(app.page, SettingsPage::Security);
}

#[test]
fn control_step_ignores_other_messages() {
    let mut app = AppState::new(320, 300, true);
    let out = control_step(&mut app, &control(AppControlTag::OpenPath, &[1, 2]));
    assert!(matches!(out, ControlStep::Continue { changed: false, command: SettingsCommand::Nothing }));
    assert_eq!(app.page, SettingsPage::System);
    assert!(app.focused);
}

#[test]
fn event_word_decoding_uses_low_bits_and_defaults() {
    assert_eq!(event_from_word(2), LogEvent::ServiceReady);
    assert_eq!(event_from_word((1u64 << 32) | 2), LogEvent::ServiceReady);
    assert_eq!(event_from_word(9999), LogEvent::LookupGranted);
    assert_eq!(event_from_word(64), LogEvent::KernelTrap);
}
