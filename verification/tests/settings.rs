use serviceos_runtime::abi::{NetworkConfigMode, NetworkConfigState, PacketInterfaceBackend, PacketInterfaceLinkState};
use serviceos_runtime::settings::{format_ipv4, format_loss, format_mac, parse_priority, ping_target_address, push_decimal};
use serviceos_runtime::types::NetworkInterfaceStatusInfo;

#[test]
fn ipv4_text_formats_dotted_quad() {
    assert_eq!(format_ipv4(0x0a00_020f), b"10.0.2.15".to_vec());
    assert_eq!(format_ipv4(0), b"0.0.0.0".to_vec());
}

#[test]
fn mac_text_formats_colon_pairs() {
    assert_eq!(format_mac([0x52, 0x54, 0x00, 0x12, 0x34, 0x56]), b"52:54:00:12:34:56".to_vec());
}

#[test]
fn loss_text_renders_permil_as_percent() {
    assert_eq!(format_loss(0), b"0.0%".to_vec());
    assert_eq!(format_loss(125), b"12.5%".to_vec());
    assert_eq!(format_loss(1000), b"100.0%".to_vec());
}

#[test]
fn priority_parse_empty_means_zero_and_rejects_overflow() {
    assert_eq!(parse_priority(b""), Some(0));
    assert_eq!(parse_priority(b"3"), Some(3));
    assert_eq!(parse_priority(b"007"), Some(7));
    assert_eq!(parse_priority(b"255"), Some(255));
    assert_eq!(parse_priority(b"256"), None);
    assert_eq!(parse_priority(b"x"), None);
    assert_eq!(parse_priority(b"1x"), None);
}

#[test]
fn ping_target_prefers_gateway_then_dns_then_none() {
    let mut interface = NetworkInterfaceStatusInfo {
        index: 0,
        backend: PacketInterfaceBackend::VirtioPci,
        link_state: PacketInterfaceLinkState::Up,
        mtu: 1500,
        config_mode: NetworkConfigMode::Dynamic,
        config_state: NetworkConfigState::Configured,
        address: 0x0a00_020f,
        prefix_len: 24,
        gateway: 0x0a00_0202,
        dns_server: 0x0a00_0203,
        mac: [0; 6],
        rx_packets: 0,
        tx_packets: 0,
        dropped_packets: 0,
        resolver_hits: 0,
        resolver_misses: 0,
    };
    assert_eq!(ping_target_address(Some(interface)), Some(0x0a00_0202));

    interface.gateway = 0;
    assert_eq!(ping_target_address(Some(interface)), Some(0x0a00_0203));

    interface.dns_server = 0;
    assert_eq!(ping_target_address(Some(interface)), None);
    assert_eq!(ping_target_address(None), None);
}

#[test]
fn decimal_text_of_extremes() {
    let mut out = b"n=".to_vec();
    push_decimal(&mut out, u64::MAX);
    assert_eq!(out, b"n=18446744073709551615".to_vec());
    assert_eq!(format_ipv4(0xffff_ffff), b"255.255.255.255".to_vec());
    assert_eq!(format_mac([0xab, 0xcd, 0xef, 0x00, 0x0f, 0xf0]), b"ab:cd:ef:00:0f:f0".to_vec());
    assert_eq!(format_loss(7), b"0.7%".to_vec());
    assert_eq!(parse_priority(b"0000"), Some(0));
    assert_eq!(parse_priority(b"9999"), None);
}
