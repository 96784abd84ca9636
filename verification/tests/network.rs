use serviceos_runtime::abi::{NetworkListenPortKind, NetworkStatus, NetworkTag, WifiLinkState, WifiSecurity};
use serviceos_runtime::error::Error;
use serviceos_runtime::message::{pack_bytes, unpack_bytes, Exchange, RawMessage};
use serviceos_runtime::network::{
    firewall_replace_request, network_diag_ping_stats_parse_reply, network_diag_ping_stats_request,
    network_discovery_peers_parse_reply, network_firewall_summary_parse_reply,
    network_hostname_parse_reply, network_hostname_set_request, network_interface_count,
    network_interface_status_parse_reply, network_listen_ports_parse_reply,
    network_neighbor_parse_reply, network_resolve, network_socket_close, network_wifi_join_parse_reply,
    network_wifi_join_request, network_wifi_saved_add_request, network_wifi_saved_list_parse_reply,
    network_wifi_saved_remove_request, network_wifi_scan_parse_reply, network_wifi_security_from_word,
    network_wifi_status_parse_reply, pack_firewall_rule_word, unpack_mac, NetworkFirewallDirection,
    NetworkFirewallProto, NetworkFirewallRule, NETWORK_DIAG_PINGS_MAX, NETWORK_NAME_BYTES_MAX,
    NETWORK_WIFI_PSK_BYTES_MAX, WIFI_SAVED_ENTRY_WORDS, WIFI_SCAN_ENTRY_WORDS,
};
use serviceos_runtime::types::{
    NetworkDiscoveryPeer, NetworkListenPort, NetworkNeighborEntry, NetworkWifiSavedNetwork,
    NetworkWifiScanEntry,
};

fn ok_word() -> u64 {
    NetworkStatus::Success.code() as u64
}

#[test]
fn hostname_set_request_packs_name_inline() {
    let request = network_hostname_set_request("serviceos").expect("name within cap packs");
    assert_eq!(request.tag, NetworkTag::HostnameSetRequest.code());
    assert_eq!(request.words[0], 9);
    let mut name = [0u8; 16];
    unpack_bytes(&request.words[1..3], 9, &mut name).expect("name decodes");
    assert_eq!(&name[..9], b"serviceos");

    let long = [b'a'; NETWORK_NAME_BYTES_MAX + 1];
    assert!(core::str::from_utf8(&long).is_ok());
    assert_eq!(
        network_hostname_set_request(core::str::from_utf8(&long).expect("ascii"))
            .expect_err("over-long name rejected"),
        Error::BufferTooSmall
    );
}

#[test]
fn hostname_get_parse_reply_decodes_name() {
    let mut payload = [0u64; 8];
    let packed = pack_bytes(b"serviceos", &mut payload).expect("name packs");
    let mut reply = RawMessage::empty(NetworkTag::HostnameGetReply.code());
    reply.word_count = 2 + packed;
    reply.words[0] = ok_word();
    reply.words[1] = 9;
    reply.words[2..2 + packed as usize].copy_from_slice(&payload[..packed as usize]);

    let mut name = [0u8; 32];
    let len = network_hostname_parse_reply(&reply, &mut name).expect("reply parses");
    assert_eq!(len, 9);
    assert_eq!(&name[..len], b"serviceos");

    reply.words[0] = NetworkStatus::Busy.code() as u64;
    assert_eq!(
        network_hostname_parse_reply(&reply, &mut name).expect_err("busy maps to error"),
        Error::Busy
    );

    let mut tiny = [0u8; 4];
    reply.words[0] = ok_word();
    assert_eq!(
        network_hostname_parse_reply(&reply, &mut tiny).expect_err("short buffer rejected"),
        Error::BufferTooSmall
    );
}

#[test]
fn diag_ping_stats_request_clamps_count_and_packs_target() {
    let request = network_diag_ping_stats_request("10.0.2.2", 99).expect("request builds");
    assert_eq!(request.tag, NetworkTag::DiagPingStatsRequest.code());
    assert_eq!(request.words[0], 8);
    assert_eq!(request.words[1], NETWORK_DIAG_PINGS_MAX as u64);
    let mut target = [0u8; 16];
    unpack_bytes(&request.words[2..3], 8, &mut target).expect("target decodes");
    assert_eq!(&target[..8], b"10.0.2.2");

    let request = network_diag_ping_stats_request("gw", 0).expect("request builds");
    assert_eq!(request.words[1], 1, "count clamps up to one probe");
}

#[test]
fn diag_ping_stats_parse_reply_decodes_summary() {
    let mut reply = RawMessage::empty(NetworkTag::DiagPingStatsReply.code());
    reply.word_count = 9;
    reply.words[0] = ok_word();
    reply.words[1] = 0x0a00_0202;
    reply.words[2] = 8;
    reply.words[3] = 7;
    reply.words[4] = 4;
    reply.words[5] = 20;
    reply.words[6] = 11;
    reply.words[7] = 5;
    reply.words[8] = 125;

    let stats = network_diag_ping_stats_parse_reply(&reply).expect("stats parse");
    assert_eq!(stats.resolved_address, 0x0a00_0202);
    assert_eq!(stats.sent, 8);
    assert_eq!(stats.received, 7);
    assert_eq!(stats.min_ms, 4);
    assert_eq!(stats.max_ms, 20);
    assert_eq!(stats.avg_ms, 11);
    assert_eq!(stats.jitter_ms, 5);
    assert_eq!(stats.loss_permil, 125);

    reply.words[0] = NetworkStatus::Timeout.code() as u64;
    reply.words[3] = 0;
    reply.words[8] = 1000;
    let stats = network_diag_ping_stats_parse_reply(&reply).expect("timeout parses");
    assert_eq!(stats.received, 0);
    assert_eq!(stats.loss_permil, 1000);

    reply.words[0] = NetworkStatus::Denied.code() as u64;
    assert_eq!(
        network_diag_ping_stats_parse_reply(&reply).expect_err("denied maps to error"),
        Error::PermissionDenied
    );
}

#[test]
fn neighbor_parse_reply_decodes_address_mac_pairs() {
    let mut reply = RawMessage::empty(NetworkTag::NeighborDumpReply.code());
    reply.word_count = 4;
    reply.words[0] = ok_word();
    reply.words[1] = 1;
    reply.words[2] = 0x0a00_020f;
    reply.words[3] = 0x5254_0012_3456;

    let mut neighbors = [NetworkNeighborEntry { address: 0, mac: [0; 6] }; 6];
    let count = network_neighbor_parse_reply(&reply, &mut neighbors).expect("parses");
    assert_eq!(count, 1);
    assert_eq!(neighbors[0].address, 0x0a00_020f);
    assert_eq!(neighbors[0].mac, [0x56, 0x34, 0x12, 0x00, 0x54, 0x52]);

    reply.word_count = 5;
    assert_eq!(
        network_neighbor_parse_reply(&reply, &mut neighbors).expect_err("ragged reply rejected"),
        Error::BufferTooSmall
    );
}

#[test]
fn listen_ports_parse_reply_decodes_kind_port_words() {
    let mut reply = RawMessage::empty(NetworkTag::ListenPortsReply.code());
    reply.word_count = 4;
    reply.words[0] = ok_word();
    reply.words[1] = 2;
    reply.words[2] = (1u64 << 48) | 80;
    reply.words[3] = (3u64 << 48) | 41453;

    let mut ports = [NetworkListenPort { kind: NetworkListenPortKind::Unknown, port: 0 }; 8];
    let count = network_listen_ports_parse_reply(&reply, &mut ports).expect("parses");
    assert_eq!(count, 2);
    assert_eq!(ports[0].kind, NetworkListenPortKind::TcpListener);
    assert_eq!(ports[0].port, 80);
    assert_eq!(ports[1].kind, NetworkListenPortKind::UdpInternal);
    assert_eq!(ports[1].port, 41453);

    let mut none: [NetworkListenPort; 0] = [];
    let _ = network_listen_ports_parse_reply(&reply, &mut none)
        .expect_err("reply exceeding buffer rejected");
}

#[test]
fn discovery_peers_parse_reply_decodes_packed_peer_words() {
    let mut name1 = [0u8; 15];
    name1[..6].copy_from_slice(b"host-1");
    let mut w1 = [0u64; 2];
    let _ = pack_bytes(&name1[..8], &mut w1);
    let mut w2 = [0u64; 1];
    let _ = pack_bytes(&name1[8..], &mut w2);

    let mut reply = RawMessage::empty(NetworkTag::DiscoveryPeersReply.code());
    reply.word_count = 5;
    reply.words[0] = ok_word();
    reply.words[1] = 1;
    reply.words[2] = (0x0a00_0209u64 << 32) | (6u64 << 24) | 1234;
    reply.words[3] = w1[0];
    reply.words[4] = w2[0];

    let mut peers = [NetworkDiscoveryPeer { address: 0, name_len: 0, name: [0; 15], age_ms: 0 }; 4];
    let count = network_discovery_peers_parse_reply(&reply, &mut peers).expect("parses");
    assert_eq!(count, 1);
    assert_eq!(peers[0].address, 0x0a00_0209);
    assert_eq!(peers[0].name_len, 6);
    assert_eq!(&peers[0].name[..6], b"host-1");
    assert_eq!(peers[0].age_ms, 1234);
}

#[test]
fn firewall_summary_parse_reply_decodes_policy_and_counters() {
    let mut reply = RawMessage::empty(NetworkTag::FirewallRulesReply.code());
    reply.word_count = 4;
    reply.words[0] = ok_word();
    reply.words[1] = 3;
    reply.words[2] = 0;
    reply.words[3] = (7u64 << 32) | 2;

    let summary = network_firewall_summary_parse_reply(&reply).expect("parses");
    assert_eq!(summary.rule_count, 3);
    assert!(!summary.default_inbound_allow);
    assert_eq!(summary.inbound_denied_total, 7);
    assert_eq!(summary.outbound_denied_total, 2);

    reply.words[0] = NetworkStatus::Unsupported.code() as u64;
    assert_eq!(
        network_firewall_summary_parse_reply(&reply).expect_err("unsupported maps to error"),
        Error::Unsupported
    );
}

#[test]
fn interface_status_reply_trailing_words_are_optional() {
    let mut reply = RawMessage::empty(NetworkTag::InterfaceStatusReply.code());
    reply.word_count = 15;
    reply.words[0] = ok_word();
    let parsed = network_interface_status_parse_reply(&reply).expect("parses");
    let info = parsed.expect("status present");
    assert_eq!(info.resolver_hits, 0);
    assert_eq!(info.resolver_misses, 0);

    reply.word_count = 16;
    reply.words[15] = (12u64 << 32) | 34;
    let info = network_interface_status_parse_reply(&reply)
        .expect("parses")
        .expect("status");
    assert_eq!(info.resolver_hits, 12);
    assert_eq!(info.resolver_misses, 34);
}

#[test]
fn wifi_join_request_packs_ssid_psk_inline_and_validates() {
    let request = network_wifi_join_request("home", Some("passphrase1")).expect("request builds");
    assert_eq!(request.tag, NetworkTag::WifiJoinRequest.code());
    assert_eq!(request.words[0], 4);
    assert_eq!(request.words[1], 11);
    assert_eq!(request.word_count, 2 + 1 + 2);
    let mut ssid = [0u8; 8];
    unpack_bytes(&request.words[2..3], 4, &mut ssid).expect("ssid decodes");
    assert_eq!(&ssid[..4], b"home");
    let mut psk = [0u8; 16];
    unpack_bytes(&request.words[3..5], 11, &mut psk).expect("psk decodes");
    assert_eq!(&psk[..11], b"passphrase1");

    let request = network_wifi_join_request("cafe", None).expect("request builds");
    assert_eq!(request.word_count, 3);
    assert_eq!(request.words[1], 0);

    assert!(network_wifi_join_request("", None).is_err());
    assert!(network_wifi_join_request("home", Some("short")).is_err());
    let long_psk = "p".repeat(NETWORK_WIFI_PSK_BYTES_MAX + 1);
    assert!(network_wifi_join_request("home", Some(&long_psk)).is_err());
    assert!(network_wifi_join_request("", None).is_err());
}

#[test]
fn wifi_join_parse_reply_maps_status_and_link_state() {
    let mut reply = RawMessage::empty(NetworkTag::WifiJoinReply.code());
    reply.word_count = 2;
    reply.words[0] = ok_word();
    reply.words[1] = WifiLinkState::Connected.code() as u64;
    assert_eq!(network_wifi_join_parse_reply(&reply).expect("parses"), WifiLinkState::Connected);

    reply.words[0] = NetworkStatus::Unsupported.code() as u64;
    assert_eq!(network_wifi_join_parse_reply(&reply).expect_err("unsupported"), Error::Unsupported);

    reply.words[0] = ok_word();
    reply.words[1] = 99;
    assert!(network_wifi_join_parse_reply(&reply).is_err());
}

#[test]
fn wifi_scan_parse_reply_decodes_entry_fields() {
    let mut reply = RawMessage::empty(NetworkTag::WifiScanReply.code());
    reply.word_count = 3 + WIFI_SCAN_ENTRY_WORDS as u32;
    reply.words[0] = ok_word();
    reply.words[1] = 1;
    reply.words[2] = 1;
    let bssid48 = 0xaabbccddeeffu64;
    reply.words[3] = (6u64 << 56) | (0xd8u64 << 48) | bssid48;
    reply.words[4] = (4u64 << 56) | (1u64 << 48) | u64::from_le_bytes(*b"home\0\0\0\0");
    reply.words[5] = u64::from_le_bytes(*b"work\0\0\0\0");
    reply.words[6] = 0;
    reply.words[7] = 0;
    reply.words[8] = 0;
    let mut entries = [NetworkWifiScanEntry {
        bssid: [0; 6],
        channel: 0,
        rssi: 0,
        ssid_len: 0,
        ssid: [0; 32],
        security: WifiSecurity::Unknown,
    }; 2];
    let total = network_wifi_scan_parse_reply(&reply, &mut entries).expect("parses");
    assert_eq!(total, 1);
    let entry = &entries[0];
    assert_eq!(entry.bssid, [0xaa, 0xbb, 0xcc, 0xdd, 0xee, 0xff]);
    assert_eq!(entry.channel, 6);
    assert_eq!(entry.rssi, -40);
    assert_eq!(entry.ssid_len, 4);
    assert_eq!(&entry.ssid[..4], b"home");
    assert_eq!(entry.security, WifiSecurity::Wpa2);

    let mut absent = RawMessage::empty(NetworkTag::WifiScanReply.code());
    absent.word_count = 3;
    absent.words[0] = NetworkStatus::Unsupported.code() as u64;
    absent.words[1] = 0;
    absent.words[2] = 0;
    assert_eq!(
        network_wifi_scan_parse_reply(&absent, &mut entries).expect_err("unsupported"),
        Error::Unsupported
    );
}

#[test]
fn wifi_saved_list_parse_reply_decodes_ssid_and_priority() {
    let mut reply = RawMessage::empty(NetworkTag::WifiSavedListReply.code());
    reply.word_count = (3 + WIFI_SAVED_ENTRY_WORDS) as u32;
    reply.words[0] = ok_word();
    reply.words[1] = 1;
    reply.words[2] = 1;
    reply.words[3] = (4u64 << 56) | (3u64 << 48) | u64::from_le_bytes(*b"home\0\0\0\0");
    reply.words[4] = 0;
    let mut saved = [NetworkWifiSavedNetwork { ssid_len: 0, ssid: [0; 32], priority: 0 }; 2];
    let total = network_wifi_saved_list_parse_reply(&reply, &mut saved).expect("parses");
    assert_eq!(total, 1);
    assert_eq!(saved[0].ssid_len, 4);
    assert_eq!(&saved[0].ssid[..4], b"home");
    assert_eq!(saved[0].priority, 3);
}

#[test]
fn wifi_saved_add_remove_request_shapes_roundtrip() {
    let request = network_wifi_saved_add_request("home", "passphrase1", 3).expect("request builds");
    assert_eq!(request.tag, NetworkTag::WifiSavedAddRequest.code());
    assert_eq!(request.word_count, 6);
    assert_eq!(request.words[0], 4);
    assert_eq!(request.words[1], 11);
    assert_eq!(request.words[2], 3);
    assert!(network_wifi_saved_add_request("open", "", 0).is_err());
    assert!(network_wifi_saved_add_request("", "passphrase1", 0).is_err());

    let remove = network_wifi_saved_remove_request("home").expect("request builds");
    assert_eq!(remove.tag, NetworkTag::WifiSavedRemoveRequest.code());
    assert_eq!(remove.word_count, 2);
    assert_eq!(remove.words[0], 4);
    assert!(network_wifi_saved_remove_request("").is_err());
}

#[test]
fn wifi_status_parse_reply_validates_echo_shape() {
    let mut reply = RawMessage::empty(NetworkTag::WifiStatusReply.code());
    reply.word_count = 8;
    reply.words[0] = ok_word();
    reply.words[1] = WifiLinkState::Connected.code() as u64;
    reply.words[2] = 1;
    reply.words[3] = 4;
    reply.words[4] = u64::from_le_bytes(*b"home\0\0\0\0");
    let status = network_wifi_status_parse_reply(&reply).expect("parses");
    assert_eq!(status.link_state, WifiLinkState::Connected);
    assert!(status.backend_present);
    assert_eq!(&status.ssid[..4], b"home");

    reply.words[0] = NetworkStatus::Unsupported.code() as u64;
    assert_eq!(network_wifi_status_parse_reply(&reply).expect_err("unsupported"), Error::Unsupported);

    reply.words[0] = ok_word();
    reply.words[1] = 42;
    assert!(network_wifi_status_parse_reply(&reply).is_err());
}

#[test]
fn firewall_rule_word_packs_qualifier_bits() {
    let legacy = NetworkFirewallRule {
        deny: true,
        proto: NetworkFirewallProto::Tcp,
        direction: NetworkFirewallDirection::Inbound,
        port: 80,
        interface: None,
        enabled: true,
    };
    let word = pack_firewall_rule_word(&legacy);
    assert_eq!(word & 0xff, 1, "deny");
    assert_eq!((word >> 8) & 0xff, NetworkFirewallProto::Tcp.code());
    assert_eq!((word >> 16) & 0xff, NetworkFirewallDirection::Inbound.code());
    assert_eq!((word >> 24) & 1, 1, "enabled");
    assert_eq!((word >> 32) & 0xffff, 80);
    assert_eq!(word >> 48, 0, "unqualified");

    let pinned = NetworkFirewallRule {
        deny: false,
        proto: NetworkFirewallProto::Udp,
        direction: NetworkFirewallDirection::Outbound,
        port: 0,
        interface: Some(1),
        enabled: false,
    };
    let word = pack_firewall_rule_word(&pinned);
    assert_eq!(word & 0xff, 0, "allow");
    assert_eq!(word >> 48, 2, "interface index 1 -> qualifier 2");
    assert_eq!((word >> 24) & 1, 0, "disabled flag rides the rule word");
}

#[test]
fn firewall_replace_request_carries_qualified_rules() {
    let rules = [
        NetworkFirewallRule {
            deny: true,
            proto: NetworkFirewallProto::Udp,
            direction: NetworkFirewallDirection::Outbound,
            port: 53,
            interface: Some(0),
            enabled: true,
        },
        NetworkFirewallRule {
            deny: false,
            proto: NetworkFirewallProto::Any,
            direction: NetworkFirewallDirection::Inbound,
            port: 443,
            interface: None,
            enabled: true,
        },
    ];
    let request = firewall_replace_request(&rules).expect("request builds");
    assert_eq!(request.tag, NetworkTag::FirewallRulesSetRequest.code());
    assert_eq!(request.word_count, 6);
    assert_eq!(request.words[0], 0, "op 0 = replace whole table");
    assert_eq!(request.words[1], 2);
    assert_eq!(request.words[2] >> 48, 1, "qualified to index 0");
    assert_eq!(request.words[3], 1, "enable flag");
    assert_eq!(request.words[4] >> 48, 0, "unqualified rule word");
    assert_eq!(request.words[5], 1);

    let too_many = [rules[0]];
    let mut oversized = [too_many[0]; 8];
    oversized[7].interface = None;
    assert!(firewall_replace_request(&oversized).is_err());
}

#[test]
fn firewall_summary_parse_reply_ignores_trailing_rule_words() {
    let mut reply = RawMessage::empty(NetworkTag::FirewallRulesReply.code());
    reply.word_count = 8;
    reply.words[0] = ok_word();
    reply.words[1] = 2;
    reply.words[2] = 0;
    reply.words[3] = (3 << 32) | 1;
    reply.words[4] = 1 | (2 << 8) | (1 << 16) | (1 << 24) | (53 << 32) | (1 << 48);
    reply.words[5] = 7;
    reply.words[6] = 0;
    reply.words[7] = 4;
    let summary = network_firewall_summary_parse_reply(&reply).expect("parses");
    assert_eq!(summary.rule_count, 2);
    assert!(!summary.default_inbound_allow);
    assert_eq!(summary.inbound_denied_total, 3);
    assert_eq!(summary.outbound_denied_total, 1);
}

#[test]
fn mac_unpacks_low_byte_first() {
    assert_eq!(unpack_mac(0x0000_5254_0012_3456), [0x56, 0x34, 0x12, 0x00, 0x54, 0x52]);
    assert_eq!(unpack_mac(0xffff_0000_0000_0000), [0; 6]);
}

#[test]
fn wifi_security_word_rejects_unknown_values() {
    assert_eq!(network_wifi_security_from_word(2), Ok(WifiSecurity::Wpa3));
    assert_eq!(network_wifi_security_from_word(4), Err(Error::InvalidArgument));
}

#[test]
fn discovery_peer_with_long_name_stops_decoding() {
    let mut reply = RawMessage::empty(NetworkTag::DiscoveryPeersReply.code());
    reply.word_count = 8;
    reply.words[0] = ok_word();
    reply.words[1] = 2;
    reply.words[2] = (1u64 << 32) | (3u64 << 24) | 5;
    reply.words[5] = (2u64 << 32) | (16u64 << 24) | 9;
    let mut peers = [NetworkDiscoveryPeer { address: 7, name_len: 0, name: [0; 15], age_ms: 0 }; 3];
    assert_eq!(network_discovery_peers_parse_reply(&reply, &mut peers), Err(Error::InvalidArgument));
    assert_eq!(peers[0].address, 1, "entry before the bad one stays decoded");
    assert_eq!(peers[1].address, 7, "bad entry leaves its slot untouched");
}

#[test]
fn interface_count_maps_busy_and_other_failures() {
    assert!(matches!(network_interface_count(None), Exchange::Send(m) if m.tag == NetworkTag::InterfaceListRequest.code()));
    let mut reply = RawMessage::empty(NetworkTag::InterfaceListReply.code());
    reply.word_count = 2;
    reply.words[1] = 3;
    assert_eq!(network_interface_count(Some(&reply)), Exchange::Done(Ok(3)));
    reply.words[0] = NetworkStatus::Busy.code() as u64;
    assert_eq!(network_interface_count(Some(&reply)), Exchange::Done(Err(Error::Busy)));
    reply.words[0] = NetworkStatus::Denied.code() as u64;
    assert_eq!(network_interface_count(Some(&reply)), Exchange::Done(Err(Error::InvalidArgument)));
}

#[test]
fn resolve_copies_addresses_and_checks_room() {
    let mut addresses = [0u32; 2];
    match network_resolve("gw", &mut addresses, None) {
        Exchange::Send(m) => {
            assert_eq!(m.tag, NetworkTag::ResolveRequest.code());
            assert_eq!(m.word_count, 2);
            assert_eq!(m.words[0], 2);
        }
        other => panic!("expected a request, got {:?}", other),
    }
    let mut reply = RawMessage::empty(NetworkTag::ResolveReply.code());
    reply.word_count = 4;
    reply.words[1] = 2;
    reply.words[2] = 0x0a00_0001;
    reply.words[3] = 0x0a00_0002;
    assert_eq!(network_resolve("gw", &mut addresses, Some(&reply)), Exchange::Done(Ok(2)));
    assert_eq!(addresses, [0x0a00_0001, 0x0a00_0002]);
    reply.words[1] = 3;
    assert_eq!(network_resolve("gw", &mut addresses, Some(&reply)), Exchange::Done(Err(Error::BufferTooSmall)));
}

#[test]
fn socket_close_accepts_already_closed() {
    let mut reply = RawMessage::empty(serviceos_runtime::abi::NetworkSocketTag::CloseReply.code());
    reply.word_count = 1;
    reply.words[0] = NetworkStatus::Closed.code() as u64;
    assert_eq!(network_socket_close(Some(&reply)), Exchange::Done(Ok(())));
    reply.words[0] = NetworkStatus::Denied.code() as u64;
    assert_eq!(network_socket_close(Some(&reply)), Exchange::Done(Err(Error::PermissionDenied)));
}
