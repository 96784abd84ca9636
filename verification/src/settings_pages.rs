//! The text the settings app's pages show, line by line in drawing order,
//! built from what the services reported and the app's state. Drawing the
//! lines (their places and colours) is the toolkit's part.
use vstd::prelude::*;
use vstd::string::StringSliceAdditionalSpecFns;
use vstd::utf8::valid_utf8;

use crate::settings::{decimal, format_ipv4, format_loss, format_mac, ipv4_text, link_state_name, link_state_text, listen_port_kind_name, listen_port_kind_text, loss_text, mac_text, push_decimal};
use crate::error::Result;
use crate::settings_app::AppState;
use crate::types::NetworkWifiStatus;
use crate::wifi_page::{
    classify, classify_of, error_name as wifi_error_name, error_text as wifi_error_text, first_hint, hint_lines,
    join_outcome_line, join_outcome_text, link_state_name as wifi_link_name, link_state_text as wifi_link_text,
    prompt_text as wifi_prompt_text, prompt_title as wifi_prompt_title, saved_outcome_line, saved_outcome_text,
    saved_row, saved_row_text, scan_row, scan_row_text, ssid_shown, ssid_str, WifiOpError, WifiUiState,
};
use crate::text::{push_bytes, str_from_utf8};
use crate::abi::{AudioEndpointState, AudioStreamState};
use crate::security_page::{
    audit_kind_name, audit_kind_text, capability_table, image_name, image_text, mask_summary, permission_summary,
    permission_table, policy_name, policy_text, runtime_cap_summary, runtime_env_state_name, runtime_env_state_text,
    PendingRuntime,
};
use crate::types::{
    AudioEndpointStatusInfo, AudioStreamInfo, RuntimeAuditInfo, SecurityAppPolicyInfo, SecurityAuditInfo,
    NetworkDiscoveryPeer, NetworkFirewallSummary, NetworkInterfaceStatusInfo, NetworkListenPort, NetworkNeighborEntry,
};

verus! {

/// The byte strings of a list of lines.
pub open spec fn views(v: Seq<Vec<u8>>) -> Seq<Seq<u8>> {
    v.map_values(|l: Vec<u8>| l@)
}

fn push_line(lines: &mut Vec<Vec<u8>>, l: Vec<u8>)
    ensures
        views(final(lines)@) == views(old(lines)@).push(l@),
{
    let ghost before = lines@;
    lines.push(l);
    assert(views(lines@) =~= views(before).push(lines@.last()@));
}

/// The bytes of a literal.
fn lit(s: &str) -> (t: Vec<u8>)
    ensures
        t@ == s.spec_bytes(),
{
    let mut t: Vec<u8> = Vec::new();
    push_bytes(&mut t, s.as_bytes());
    t
}

/// Bytes shown as text: themselves when UTF-8, else `fallback`.
pub open spec fn text_or(b: Seq<u8>, fallback: &str) -> Seq<u8> {
    if valid_utf8(b) { b } else { fallback.spec_bytes() }
}

fn push_text_or(out: &mut Vec<u8>, b: &[u8], fallback: &str)
    ensures
        final(out)@ == old(out)@ + text_or(b@, fallback),
{
    match str_from_utf8(b) {
        Some(s) => push_bytes(out, s.as_bytes()),
        None => push_bytes(out, fallback.as_bytes()),
    }
}

fn prefix<'a>(b: &'a [u8], n: usize) -> (p: &'a [u8])
    requires
        n <= b@.len(),
    ensures
        p@ == b@.subrange(0, n as int),
{
    let (head, _) = b.split_at(n);
    head
}

// ---------------------------------------------------------------------
// The network page.

/// "ETH0", the link state, and the address with its prefix length; or
/// "ETH0 UNAVAILABLE" without an interface.
pub open spec fn eth0_line(interface: Option<NetworkInterfaceStatusInfo>) -> Seq<u8> {
    match interface {
        Some(i) => "ETH0 ".spec_bytes() + link_state_text(i.link_state).spec_bytes() + seq![32u8] + ipv4_text(i.address)
            + seq![47u8] + decimal(i.prefix_len as nat),
        None => "ETH0 UNAVAILABLE".spec_bytes(),
    }
}

/// The gateway and DNS server; "GW UNAVAILABLE" without an interface or a
/// gateway.
pub open spec fn gateway_line(interface: Option<NetworkInterfaceStatusInfo>) -> Seq<u8> {
    match interface {
        Some(i) => if i.gateway != 0 {
            "GW ".spec_bytes() + ipv4_text(i.gateway) + " DNS ".spec_bytes() + ipv4_text(i.dns_server)
        } else {
            "GW UNAVAILABLE".spec_bytes()
        },
        None => "GW UNAVAILABLE".spec_bytes(),
    }
}

/// The firewall's rule count and inbound default, and its denial counts.
pub open spec fn firewall_lines(firewall: Option<NetworkFirewallSummary>) -> Seq<Seq<u8>> {
    match firewall {
        Some(f) => seq![
            "FW RULES ".spec_bytes() + decimal(f.rule_count as nat) + " IN ".spec_bytes()
                + (if f.default_inbound_allow { "ALLOW".spec_bytes() } else { "DENY".spec_bytes() }),
            "FW DENY IN ".spec_bytes() + decimal(f.inbound_denied_total as nat) + " OUT ".spec_bytes()
                + decimal(f.outbound_denied_total as nat)
        ],
        None => seq!["FW UNAVAILABLE".spec_bytes(), "FW DENY -".spec_bytes()],
    }
}

/// The resolver cache's hits and misses.
pub open spec fn resolver_line(interface: Option<NetworkInterfaceStatusInfo>) -> Seq<u8> {
    match interface {
        Some(i) => "RESOLVER HIT ".spec_bytes() + decimal(i.resolver_hits as nat) + " MISS ".spec_bytes()
            + decimal(i.resolver_misses as nat),
        None => "RESOLVER UNAVAILABLE".spec_bytes(),
    }
}

/// The three ping lines: the target and the replies over the probes sent,
/// the round-trip times, and the jitter and loss; or the failure, or the
/// invitation to run one.
pub open spec fn ping_lines(s: AppState) -> Seq<Seq<u8>> {
    if !s.ping_failed && s.ping_stats is Some {
        let st = s.ping_stats->0;
        seq![
            "PING ".spec_bytes() + text_or(s.ping_target@.subrange(0, s.ping_target_len as int), "?") + seq![32u8]
                + decimal(st.received as nat) + seq![47u8] + decimal(st.sent as nat) + " RX".spec_bytes(),
            "MIN ".spec_bytes() + decimal(st.min_ms as nat) + "MS MAX ".spec_bytes() + decimal(st.max_ms as nat)
                + "MS AVG ".spec_bytes() + decimal(st.avg_ms as nat) + "MS".spec_bytes(),
            "JIT ".spec_bytes() + decimal(st.jitter_ms as nat) + "MS LOSS ".spec_bytes() + loss_text(st.loss_permil)
        ]
    } else {
        seq![
            if s.ping_failed { "PING FAILED".spec_bytes() } else { "PING PRESS RUN".spec_bytes() },
            "MIN - MAX - AVG -".spec_bytes(),
            "JIT - LOSS -".spec_bytes()
        ]
    }
}

/// A neighbour row: its address and hardware address.
pub open spec fn neighbor_row(n: NetworkNeighborEntry) -> Seq<u8> {
    ipv4_text(n.address) + seq![32u8] + mac_text(n.mac@)
}

/// The neighbour rows, in order.
pub open spec fn neighbor_rows(ns: Seq<NetworkNeighborEntry>) -> Seq<Seq<u8>>
    decreases ns.len(),
{
    if ns.len() == 0 { Seq::empty() } else { neighbor_rows(ns.drop_last()).push(neighbor_row(ns.last())) }
}

/// One port of the ports line: a space, its kind, a space, its number.
pub open spec fn port_item(p: NetworkListenPort) -> Seq<u8> {
    seq![32u8] + listen_port_kind_text(p.kind).spec_bytes() + seq![32u8] + decimal(p.port as nat)
}

pub open spec fn port_items(ps: Seq<NetworkListenPort>) -> Seq<u8>
    decreases ps.len(),
{
    if ps.len() == 0 { Seq::empty() } else { port_items(ps.drop_last()) + port_item(ps.last()) }
}

/// The bound ports: their count and each kind and number; "PORTS
/// UNAVAILABLE" when none were listed.
pub open spec fn ports_line(ps: Seq<NetworkListenPort>) -> Seq<u8> {
    if ps.len() == 0 {
        "PORTS UNAVAILABLE".spec_bytes()
    } else {
        "PORTS ".spec_bytes() + decimal(ps.len()) + seq![58u8] + port_items(ps)
    }
}

/// One peer of the peers line: a space, its name, a space, its address.
pub open spec fn peer_item(p: NetworkDiscoveryPeer) -> Seq<u8> {
    seq![32u8] + text_or(p.name@.subrange(0, p.name_len as int), "?") + seq![32u8] + ipv4_text(p.address)
}

pub open spec fn peer_items(ps: Seq<NetworkDiscoveryPeer>) -> Seq<u8>
    decreases ps.len(),
{
    if ps.len() == 0 { Seq::empty() } else { peer_items(ps.drop_last()) + peer_item(ps.last()) }
}

/// The discovered peers: their count and each name and address; "PEERS
/// UNAVAILABLE" when none were listed.
pub open spec fn peers_line(ps: Seq<NetworkDiscoveryPeer>) -> Seq<u8> {
    if ps.len() == 0 {
        "PEERS UNAVAILABLE".spec_bytes()
    } else {
        "PEERS ".spec_bytes() + decimal(ps.len()) + seq![58u8] + peer_items(ps)
    }
}

/// The hostname field's text: the name being typed while editing, else the
/// service's hostname ("HOSTNAME UNAVAILABLE" when it read nothing or not
/// UTF-8).
pub open spec fn hostname_field(s: AppState, hostname: Seq<u8>) -> Seq<u8> {
    if s.editing_hostname {
        text_or(s.hostname_edit@.subrange(0, s.hostname_edit_len as int), "")
    } else if hostname.len() > 0 {
        text_or(hostname, "HOSTNAME UNAVAILABLE")
    } else {
        "HOSTNAME UNAVAILABLE".spec_bytes()
    }
}

/// The network page's lines in drawing order: the title, the interface,
/// gateway, firewall and resolver lines, the ping heading and its three
/// lines, one row per neighbour, the ports and peers lines, and the
/// hostname heading and field.
pub open spec fn network_lines(
    s: AppState,
    interface: Option<NetworkInterfaceStatusInfo>,
    hostname: Seq<u8>,
    firewall: Option<NetworkFirewallSummary>,
    neighbors: Seq<NetworkNeighborEntry>,
    ports: Seq<NetworkListenPort>,
    peers: Seq<NetworkDiscoveryPeer>,
) -> Seq<Seq<u8>> {
    seq!["NETWORK STATUS".spec_bytes(), eth0_line(interface), gateway_line(interface)] + firewall_lines(firewall)
        + seq![resolver_line(interface), "PING".spec_bytes()] + ping_lines(s) + neighbor_rows(neighbors)
        + seq![ports_line(ports), peers_line(peers), "HOSTNAME".spec_bytes(), hostname_field(s, hostname)]
}

fn eth0_text(interface: Option<NetworkInterfaceStatusInfo>) -> (t: Vec<u8>)
    ensures
        t@ == eth0_line(interface),
{
    match interface {
        Some(i) => {
            let mut t = lit("ETH0 ");
            push_bytes(&mut t, link_state_name(i.link_state).as_bytes());
            t.push(32);
            push_bytes(&mut t, format_ipv4(i.address).as_slice());
            t.push(47);
            push_decimal(&mut t, i.prefix_len as u64);
            t
        },
        None => lit("ETH0 UNAVAILABLE"),
    }
}

fn gateway_text(interface: Option<NetworkInterfaceStatusInfo>) -> (t: Vec<u8>)
    ensures
        t@ == gateway_line(interface),
{
    match interface {
        Some(i) => if i.gateway != 0 {
            let mut t = lit("GW ");
            push_bytes(&mut t, format_ipv4(i.gateway).as_slice());
            push_bytes(&mut t, " DNS ".as_bytes());
            push_bytes(&mut t, format_ipv4(i.dns_server).as_slice());
            t
        } else {
            lit("GW UNAVAILABLE")
        },
        None => lit("GW UNAVAILABLE"),
    }
}

fn resolver_text(interface: Option<NetworkInterfaceStatusInfo>) -> (t: Vec<u8>)
    ensures
        t@ == resolver_line(interface),
{
    match interface {
        Some(i) => {
            let mut t = lit("RESOLVER HIT ");
            push_decimal(&mut t, i.resolver_hits as u64);
            push_bytes(&mut t, " MISS ".as_bytes());
            push_decimal(&mut t, i.resolver_misses as u64);
            t
        },
        None => lit("RESOLVER UNAVAILABLE"),
    }
}

fn push_firewall_lines(lines: &mut Vec<Vec<u8>>, firewall: Option<NetworkFirewallSummary>)
    ensures
        views(final(lines)@) == views(old(lines)@) + firewall_lines(firewall),
{
    match firewall {
        Some(f) => {
            let mut a = lit("FW RULES ");
            push_decimal(&mut a, f.rule_count as u64);
            push_bytes(&mut a, " IN ".as_bytes());
            if f.default_inbound_allow {
                push_bytes(&mut a, "ALLOW".as_bytes());
            } else {
                push_bytes(&mut a, "DENY".as_bytes());
            }
            let mut b = lit("FW DENY IN ");
            push_decimal(&mut b, f.inbound_denied_total as u64);
            push_bytes(&mut b, " OUT ".as_bytes());
            push_decimal(&mut b, f.outbound_denied_total as u64);
            push_line(lines, a);
            push_line(lines, b);
        },
        None => {
            push_line(lines, lit("FW UNAVAILABLE"));
            push_line(lines, lit("FW DENY -"));
        },
    }
    assert(views(lines@) =~= views(old(lines)@) + firewall_lines(firewall));
}

fn push_ping_lines(lines: &mut Vec<Vec<u8>>, s: &AppState)
    requires
        s.wf(),
    ensures
        views(final(lines)@) == views(old(lines)@) + ping_lines(*s),
{
    if !s.ping_failed && s.ping_stats.is_some() {
        let st = s.ping_stats.unwrap();
        let mut a = lit("PING ");
        push_text_or(&mut a, prefix(s.ping_target.as_slice(), s.ping_target_len), "?");
        a.push(32);
        push_decimal(&mut a, st.received as u64);
        a.push(47);
        push_decimal(&mut a, st.sent as u64);
        push_bytes(&mut a, " RX".as_bytes());
        let mut b = lit("MIN ");
        push_decimal(&mut b, st.min_ms);
        push_bytes(&mut b, "MS MAX ".as_bytes());
        push_decimal(&mut b, st.max_ms);
        push_bytes(&mut b, "MS AVG ".as_bytes());
        push_decimal(&mut b, st.avg_ms);
        push_bytes(&mut b, "MS".as_bytes());
        let mut c = lit("JIT ");
        push_decimal(&mut c, st.jitter_ms);
        push_bytes(&mut c, "MS LOSS ".as_bytes());
        push_bytes(&mut c, format_loss(st.loss_permil).as_slice());
        assert(a@ =~= ping_lines(*s)[0]);
        assert(b@ =~= ping_lines(*s)[1]);
        assert(c@ =~= ping_lines(*s)[2]);
        push_line(lines, a);
        push_line(lines, b);
        push_line(lines, c);
    } else {
        if s.ping_failed {
            push_line(lines, lit("PING FAILED"));
        } else {
            push_line(lines, lit("PING PRESS RUN"));
        }
        push_line(lines, lit("MIN - MAX - AVG -"));
        push_line(lines, lit("JIT - LOSS -"));
    }
    assert(views(lines@) =~= views(old(lines)@) + ping_lines(*s));
}

fn push_neighbor_rows(lines: &mut Vec<Vec<u8>>, neighbors: &[NetworkNeighborEntry])
    ensures
        views(final(lines)@) == views(old(lines)@) + neighbor_rows(neighbors@),
{
    let n = neighbors.len();
    let mut i: usize = 0;
    while i < n
        invariant
            n == neighbors@.len(),
            i <= n,
            views(lines@) == views(old(lines)@) + neighbor_rows(neighbors@.subrange(0, i as int)),
        decreases n - i,
    {
        let e = neighbors[i];
        let mut row = format_ipv4(e.address);
        row.push(32);
        push_bytes(&mut row, format_mac(e.mac).as_slice());
        assert(row@ =~= neighbor_row(e));
        push_line(lines, row);
        proof {
            let sub = neighbors@.subrange(0, i + 1);
            assert(sub.drop_last() =~= neighbors@.subrange(0, i as int));
            assert(sub.last() == e);
            assert(neighbor_rows(sub) == neighbor_rows(sub.drop_last()).push(neighbor_row(sub.last())));
        }
        i = i + 1;
        assert(views(lines@) =~= views(old(lines)@) + neighbor_rows(neighbors@.subrange(0, i as int)));
    }
    assert(neighbors@.subrange(0, n as int) =~= neighbors@);
}

fn ports_text(ports: &[NetworkListenPort]) -> (t: Vec<u8>)
    ensures
        t@ == ports_line(ports@),
{
    let n = ports.len();
    if n == 0 {
        return lit("PORTS UNAVAILABLE");
    }
    let mut t = lit("PORTS ");
    push_decimal(&mut t, n as u64);
    t.push(58);
    let ghost head = t@;
    let mut i: usize = 0;
    while i < n
        invariant
            n == ports@.len(),
            i <= n,
            t@ == head + port_items(ports@.subrange(0, i as int)),
        decreases n - i,
    {
        let p = ports[i];
        t.push(32);
        push_bytes(&mut t, listen_port_kind_name(p.kind).as_bytes());
        t.push(32);
        push_decimal(&mut t, p.port as u64);
        proof {
            assert(ports@.subrange(0, i + 1).drop_last() =~= ports@.subrange(0, i as int));
        }
        i = i + 1;
        assert(t@ =~= head + port_items(ports@.subrange(0, i as int)));
    }
    assert(ports@.subrange(0, n as int) =~= ports@);
    t
}

fn peers_text(peers: &[NetworkDiscoveryPeer]) -> (t: Vec<u8>)
    requires
        forall|k: int| 0 <= k < peers@.len() ==> (#[trigger] peers@[k]).name_len <= 15,
    ensures
        t@ == peers_line(peers@),
{
    let n = peers.len();
    if n == 0 {
        return lit("PEERS UNAVAILABLE");
    }
    let mut t = lit("PEERS ");
    push_decimal(&mut t, n as u64);
    t.push(58);
    let ghost head = t@;
    let mut i: usize = 0;
    while i < n
        invariant
            n == peers@.len(),
            i <= n,
            forall|k: int| 0 <= k < peers@.len() ==> (#[trigger] peers@[k]).name_len <= 15,
            t@ == head + peer_items(peers@.subrange(0, i as int)),
        decreases n - i,
    {
        let p = peers[i];
        t.push(32);
        push_text_or(&mut t, prefix(p.name.as_slice(), p.name_len), "?");
        t.push(32);
        push_bytes(&mut t, format_ipv4(p.address).as_slice());
        proof {
            assert(peers@.subrange(0, i + 1).drop_last() =~= peers@.subrange(0, i as int));
        }
        i = i + 1;
        assert(t@ =~= head + peer_items(peers@.subrange(0, i as int)));
    }
    assert(peers@.subrange(0, n as int) =~= peers@);
    t
}

fn hostname_text(s: &AppState, hostname: &[u8]) -> (t: Vec<u8>)
    requires
        s.wf(),
    ensures
        t@ == hostname_field(*s, hostname@),
{
    let mut t: Vec<u8> = Vec::new();
    if s.editing_hostname {
        push_text_or(&mut t, prefix(s.hostname_edit.as_slice(), s.hostname_edit_len), "");
    } else if hostname.len() > 0 {
        push_text_or(&mut t, hostname, "HOSTNAME UNAVAILABLE");
    } else {
        push_bytes(&mut t, "HOSTNAME UNAVAILABLE".as_bytes());
    }
    t
}

/// The network page's lines (see `network_lines`), from the interface
/// status, the hostname read, the firewall summary, the listed
/// neighbours, ports and peers, and the app's ping and hostname editor.
pub fn network_page_lines(
    s: &AppState,
    interface: Option<NetworkInterfaceStatusInfo>,
    hostname: &[u8],
    firewall: Option<NetworkFirewallSummary>,
    neighbors: &[NetworkNeighborEntry],
    ports: &[NetworkListenPort],
    peers: &[NetworkDiscoveryPeer],
) -> (lines: Vec<Vec<u8>>)
    requires
        s.wf(),
        forall|k: int| 0 <= k < peers@.len() ==> (#[trigger] peers@[k]).name_len <= 15,
    ensures
        views(lines@) == network_lines(*s, interface, hostname@, firewall, neighbors@, ports@, peers@),
{
    let mut lines: Vec<Vec<u8>> = Vec::new();
    push_line(&mut lines, lit("NETWORK STATUS"));
    push_line(&mut lines, eth0_text(interface));
    push_line(&mut lines, gateway_text(interface));
    push_firewall_lines(&mut lines, firewall);
    push_line(&mut lines, resolver_text(interface));
    push_line(&mut lines, lit("PING"));
    push_ping_lines(&mut lines, s);
    push_neighbor_rows(&mut lines, neighbors);
    push_line(&mut lines, ports_text(ports));
    push_line(&mut lines, peers_text(peers));
    push_line(&mut lines, lit("HOSTNAME"));
    push_line(&mut lines, hostname_text(s, hostname));
    assert(views(lines@) =~= network_lines(*s, interface, hostname@, firewall, neighbors@, ports@, peers@));
    lines
}

// ---------------------------------------------------------------------
// The system page.

pub open spec fn endpoint_state_text(state: AudioEndpointState) -> &'static str {
    match state {
        AudioEndpointState::Offline => "OFFLINE",
        AudioEndpointState::Idle => "IDLE",
        AudioEndpointState::Active => "ACTIVE",
    }
}

/// The number of streams playing.
pub open spec fn active_streams(ss: Seq<AudioStreamInfo>) -> nat
    decreases ss.len(),
{
    if ss.len() == 0 {
        0
    } else {
        active_streams(ss.drop_last()) + if ss.last().state == AudioStreamState::Active { 1nat } else { 0nat }
    }
}

/// The audio line: the first endpoint's state, frequency and tones
/// played ("AUDIO UNAVAILABLE" without one), then the streams playing over
/// the streams listed.
pub open spec fn audio_line(endpoint: Option<AudioEndpointStatusInfo>, streams: Seq<AudioStreamInfo>) -> Seq<u8> {
    (match endpoint {
        Some(e) => "AUDIO ".spec_bytes() + endpoint_state_text(e.state).spec_bytes() + seq![32u8]
            + decimal(e.current_frequency_hz as nat) + "HZ ".spec_bytes() + decimal(e.play_count as nat),
        None => "AUDIO UNAVAILABLE".spec_bytes(),
    }) + " PCM ".spec_bytes() + decimal(active_streams(streams)) + seq![47u8] + decimal(streams.len())
}

/// The system page's lines in drawing order: the title, the log level and
/// heartbeat settings, the interface address and gateway, the note heading
/// and the note, and the audio line.
pub open spec fn system_lines(
    s: AppState,
    min_level: u64,
    heartbeat: u64,
    interface: Option<NetworkInterfaceStatusInfo>,
    endpoint: Option<AudioEndpointStatusInfo>,
    streams: Seq<AudioStreamInfo>,
) -> Seq<Seq<u8>> {
    seq![
        "SYSTEM OVERVIEW".spec_bytes(),
        "LOG MINIMUM ".spec_bytes() + decimal(min_level as nat),
        "HEARTBEAT ".spec_bytes() + decimal(heartbeat as nat),
        match interface {
            Some(i) => "IP ".spec_bytes() + ipv4_text(i.address),
            None => "IP UNAVAILABLE".spec_bytes(),
        },
        match interface {
            Some(i) => "GATEWAY ".spec_bytes() + ipv4_text(i.gateway),
            None => "GATEWAY UNAVAILABLE".spec_bytes(),
        },
        "NOTE".spec_bytes(),
        text_or(s.note@.subrange(0, s.note_len as int), ""),
        audio_line(endpoint, streams)
    ]
}

fn audio_text(endpoint: Option<AudioEndpointStatusInfo>, streams: &[AudioStreamInfo]) -> (t: Vec<u8>)
    ensures
        t@ == audio_line(endpoint, streams@),
{
    let mut t = match endpoint {
        Some(e) => {
            let mut t = lit("AUDIO ");
            let name = match e.state {
                AudioEndpointState::Offline => "OFFLINE",
                AudioEndpointState::Idle => "IDLE",
                AudioEndpointState::Active => "ACTIVE",
            };
            push_bytes(&mut t, name.as_bytes());
            t.push(32);
            push_decimal(&mut t, e.current_frequency_hz as u64);
            push_bytes(&mut t, "HZ ".as_bytes());
            push_decimal(&mut t, e.play_count);
            t
        },
        None => lit("AUDIO UNAVAILABLE"),
    };
    let n = streams.len();
    let mut active: usize = 0;
    let mut i: usize = 0;
    while i < n
        invariant
            n == streams@.len(),
            i <= n,
            active == active_streams(streams@.subrange(0, i as int)),
            active <= i,
        decreases n - i,
    {
        proof {
            assert(streams@.subrange(0, i + 1).drop_last() =~= streams@.subrange(0, i as int));
        }
        if streams[i].state == AudioStreamState::Active {
            active = active + 1;
        }
        i = i + 1;
    }
    assert(streams@.subrange(0, n as int) =~= streams@);
    push_bytes(&mut t, " PCM ".as_bytes());
    push_decimal(&mut t, active as u64);
    t.push(47);
    push_decimal(&mut t, n as u64);
    t
}

/// The system page's lines (see `system_lines`), from the two settings
/// read, the interface status, the first audio endpoint, the listed
/// streams and the app's note.
pub fn system_page_lines(
    s: &AppState,
    min_level: u64,
    heartbeat: u64,
    interface: Option<NetworkInterfaceStatusInfo>,
    endpoint: Option<AudioEndpointStatusInfo>,
    streams: &[AudioStreamInfo],
) -> (lines: Vec<Vec<u8>>)
    requires
        s.wf(),
    ensures
        views(lines@) == system_lines(*s, min_level, heartbeat, interface, endpoint, streams@),
{
    let mut lines: Vec<Vec<u8>> = Vec::new();
    push_line(&mut lines, lit("SYSTEM OVERVIEW"));
    let mut level = lit("LOG MINIMUM ");
    push_decimal(&mut level, min_level);
    push_line(&mut lines, level);
    let mut beat = lit("HEARTBEAT ");
    push_decimal(&mut beat, heartbeat);
    push_line(&mut lines, beat);
    match interface {
        Some(i) => {
            let mut ip = lit("IP ");
            push_bytes(&mut ip, format_ipv4(i.address).as_slice());
            push_line(&mut lines, ip);
            let mut gw = lit("GATEWAY ");
            push_bytes(&mut gw, format_ipv4(i.gateway).as_slice());
            push_line(&mut lines, gw);
        },
        None => {
            push_line(&mut lines, lit("IP UNAVAILABLE"));
            push_line(&mut lines, lit("GATEWAY UNAVAILABLE"));
        },
    }
    push_line(&mut lines, lit("NOTE"));
    let mut note: Vec<u8> = Vec::new();
    push_text_or(&mut note, prefix(s.note.as_slice(), s.note_len), "");
    push_line(&mut lines, note);
    push_line(&mut lines, audio_text(endpoint, streams));
    assert(views(lines@) =~= system_lines(*s, min_level, heartbeat, interface, endpoint, streams@));
    lines
}

// ---------------------------------------------------------------------
// The security page.

/// The policy row the page shows: the selected one, or the last when the
/// selection is past the list (row zero for an empty list).
pub open spec fn shown_policy_index(count: usize, selected: usize) -> usize {
    if count == 0 { 0 } else if selected < count { selected } else { (count - 1) as usize }
}

/// The policy row the page shows (see `shown_policy_index`).
pub fn policy_view_index(count: usize, selected: usize) -> (i: usize)
    ensures
        i == shown_policy_index(count, selected),
{
    if count == 0 {
        0
    } else if selected < count {
        selected
    } else {
        count - 1
    }
}

/// The security page's lines in drawing order: the title; the shown
/// application with its place in the list, its policy and its permission
/// and sensitive-permission summaries; the app-policy heading; the runtime
/// environment awaiting a decision; the runtime-actions heading; and the
/// latest audit record, the runtime's first.
/// The lines of the shown application: its name with its place in the
/// list, its policy, and its permission and sensitive-permission
/// summaries.
pub open spec fn app_lines(count: usize, selected: usize, policy: Option<SecurityAppPolicyInfo>) -> Seq<Seq<u8>> {
    match policy {
        Some(p) => seq![
            "APP ".spec_bytes() + text_or(p.name@.subrange(0, p.name_len as int), "?") + " (".spec_bytes()
                + decimal((shown_policy_index(count, selected) + 1) as nat) + seq![47u8] + decimal(count as nat) + ")".spec_bytes(),
            "POLICY ".spec_bytes() + policy_text(p.policy).spec_bytes(),
            "PERMS ".spec_bytes() + mask_summary(p.permissions, permission_table()),
            "SENSITIVE ".spec_bytes() + mask_summary(p.sensitive_permissions, permission_table())
        ],
        None => seq![
            "APP no registered policies".spec_bytes(),
            "POLICY unavailable".spec_bytes(),
            "PERMS -".spec_bytes(),
            "SENSITIVE -".spec_bytes()
        ],
    }
}

/// The runtime line: the environment awaiting a decision, with its state
/// and capabilities.
pub open spec fn runtime_line(runtime_installed: bool, pending: Option<PendingRuntime>) -> Seq<u8> {
    if !runtime_installed {
        "RUNTIME service not installed".spec_bytes()
    } else {
        match pending {
            Some(r) => "RUNTIME env".spec_bytes() + decimal(r.env_id as nat) + seq![32u8] + runtime_env_state_text(r.state).spec_bytes()
                + seq![32u8] + mask_summary(r.capabilities, capability_table()),
            None => "RUNTIME no pending or denied environments".spec_bytes(),
        }
    }
}

/// The audit line: the runtime service's latest record, else the security
/// service's.
pub open spec fn audit_line(native: Option<SecurityAuditInfo>, runtime_audit: Option<RuntimeAuditInfo>) -> Seq<u8> {
    match runtime_audit {
        Some(a) => "AUDIT runtime#".spec_bytes() + decimal(a.sequence as nat) + seq![32u8] + audit_kind_text(a.kind).spec_bytes()
            + " env".spec_bytes() + decimal(a.env_id as nat),
        None => match native {
            Some(a) => "AUDIT native#".spec_bytes() + decimal(a.sequence as nat) + seq![32u8] + audit_kind_text(a.kind).spec_bytes()
                + seq![32u8] + image_text(a.subject_image_id).spec_bytes(),
            None => "AUDIT no recent security events".spec_bytes(),
        },
    }
}

/// The security page's lines in drawing order: the title, the shown
/// application's lines, the app-policy heading, the runtime line, the
/// runtime-actions heading, and the audit line.
pub open spec fn security_lines(
    count: usize,
    selected: usize,
    policy: Option<SecurityAppPolicyInfo>,
    runtime_installed: bool,
    pending: Option<PendingRuntime>,
    native: Option<SecurityAuditInfo>,
    runtime_audit: Option<RuntimeAuditInfo>,
) -> Seq<Seq<u8>> {
    seq!["SECURITY REVIEW".spec_bytes()] + app_lines(count, selected, policy) + seq![
        "APP POLICY".spec_bytes(),
        runtime_line(runtime_installed, pending),
        "RUNTIME ACTIONS".spec_bytes(),
        audit_line(native, runtime_audit)
    ]
}

fn push_app_lines(lines: &mut Vec<Vec<u8>>, count: usize, selected: usize, policy: Option<SecurityAppPolicyInfo>)
    requires
        policy matches Some(p) ==> p.name_len <= 64,
    ensures
        views(final(lines)@) == views(old(lines)@) + app_lines(count, selected, policy),
{
    match policy {
        Some(p) => {
            let mut a = lit("APP ");
            push_text_or(&mut a, prefix(p.name.as_slice(), p.name_len as usize), "?");
            push_bytes(&mut a, " (".as_bytes());
            let shown = policy_view_index(count, selected);
            push_decimal(&mut a, shown as u64 + 1);
            a.push(47);
            push_decimal(&mut a, count as u64);
            push_bytes(&mut a, ")".as_bytes());
            let mut b = lit("POLICY ");
            push_bytes(&mut b, policy_name(p.policy).as_bytes());
            let mut c = lit("PERMS ");
            push_bytes(&mut c, permission_summary(p.permissions).as_slice());
            let mut d = lit("SENSITIVE ");
            push_bytes(&mut d, permission_summary(p.sensitive_permissions).as_slice());
            assert(a@ =~= app_lines(count, selected, policy)[0]);
            assert(b@ =~= app_lines(count, selected, policy)[1]);
            assert(c@ =~= app_lines(count, selected, policy)[2]);
            assert(d@ =~= app_lines(count, selected, policy)[3]);
            push_line(lines, a);
            push_line(lines, b);
            push_line(lines, c);
            push_line(lines, d);
        },
        None => {
            push_line(lines, lit("APP no registered policies"));
            push_line(lines, lit("POLICY unavailable"));
            push_line(lines, lit("PERMS -"));
            push_line(lines, lit("SENSITIVE -"));
        },
    }
    assert(views(lines@) =~= views(old(lines)@) + app_lines(count, selected, policy));
}

fn runtime_text(runtime_installed: bool, pending: Option<PendingRuntime>) -> (t: Vec<u8>)
    ensures
        t@ == runtime_line(runtime_installed, pending),
{
    if !runtime_installed {
        return lit("RUNTIME service not installed");
    }
    match pending {
        Some(r) => {
            let mut t = lit("RUNTIME env");
            push_decimal(&mut t, r.env_id as u64);
            t.push(32);
            push_bytes(&mut t, runtime_env_state_name(r.state).as_bytes());
            t.push(32);
            push_bytes(&mut t, runtime_cap_summary(r.capabilities).as_slice());
            t
        },
        None => lit("RUNTIME no pending or denied environments"),
    }
}

fn audit_text(native: Option<SecurityAuditInfo>, runtime_audit: Option<RuntimeAuditInfo>) -> (t: Vec<u8>)
    ensures
        t@ == audit_line(native, runtime_audit),
{
    match runtime_audit {
        Some(a) => {
            let mut t = lit("AUDIT runtime#");
            push_decimal(&mut t, a.sequence as u64);
            t.push(32);
            push_bytes(&mut t, audit_kind_name(a.kind).as_bytes());
            push_bytes(&mut t, " env".as_bytes());
            push_decimal(&mut t, a.env_id as u64);
            t
        },
        None => match native {
            Some(a) => {
                let mut t = lit("AUDIT native#");
                push_decimal(&mut t, a.sequence as u64);
                t.push(32);
                push_bytes(&mut t, audit_kind_name(a.kind).as_bytes());
                t.push(32);
                push_bytes(&mut t, image_name(a.subject_image_id).as_bytes());
                t
            },
            None => lit("AUDIT no recent security events"),
        },
    }
}

/// The security page's lines (see `security_lines`), from the policy
/// count, the selection, the shown policy (listed at
/// `policy_view_index`), whether the runtime service is installed, the
/// environment awaiting a decision, and the latest audit records.
pub fn security_page_lines(
    count: usize,
    selected: usize,
    policy: Option<SecurityAppPolicyInfo>,
    runtime_installed: bool,
    pending: Option<PendingRuntime>,
    native: Option<SecurityAuditInfo>,
    runtime_audit: Option<RuntimeAuditInfo>,
) -> (lines: Vec<Vec<u8>>)
    requires
        policy matches Some(p) ==> p.name_len <= 64,
    ensures
        views(lines@) == security_lines(count, selected, policy, runtime_installed, pending, native, runtime_audit),
{
    let mut lines: Vec<Vec<u8>> = Vec::new();
    push_line(&mut lines, lit("SECURITY REVIEW"));
    push_app_lines(&mut lines, count, selected, policy);
    push_line(&mut lines, lit("APP POLICY"));
    push_line(&mut lines, runtime_text(runtime_installed, pending));
    push_line(&mut lines, lit("RUNTIME ACTIONS"));
    push_line(&mut lines, audit_text(native, runtime_audit));
    assert(views(lines@) =~= security_lines(count, selected, policy, runtime_installed, pending, native, runtime_audit));
    lines
}

// ---------------------------------------------------------------------
// The wireless page.

/// The status lines: the link state and joined SSID ("-" for none) and
/// "DEVICE PRESENT" when the status was read; otherwise an empty line and
/// the reason: no wireless device when the call is unsupported, else the
/// device unavailable.
pub open spec fn wifi_status_lines(status: Result<NetworkWifiStatus>) -> Seq<Seq<u8>> {
    match status {
        Ok(st) => seq![
            "WLAN ".spec_bytes() + wifi_link_text(st.link_state).spec_bytes() + " SSID ".spec_bytes()
                + (if st.ssid_len > 0 { ssid_shown(st.ssid@, st.ssid_len) } else { "-".spec_bytes() }),
            "DEVICE PRESENT".spec_bytes()
        ],
        Err(e) => seq![
            Seq::empty(),
            if classify_of(e) == WifiOpError::Unsupported {
                "DEVICE: NO WIRELESS DEVICE".spec_bytes()
            } else {
                "DEVICE UNAVAILABLE".spec_bytes()
            }
        ],
    }
}

/// The scan heading: the scan's failure, or the networks found and
/// shown, or the invitation to scan.
pub open spec fn scan_header(w: WifiUiState) -> Seq<u8> {
    match w.scan_error {
        Some(e) => "SCAN FAILED ".spec_bytes() + wifi_error_text(e).spec_bytes(),
        None => if w.scan_count > 0 {
            "SCAN ".spec_bytes() + decimal(w.scan_total as nat) + " FOUND (SHOWING ".spec_bytes() + decimal(w.scan_count as nat)
                + ")".spec_bytes()
        } else {
            "SCAN PRESS SCAN".spec_bytes()
        },
    }
}

/// The footer line: the join's outcome, else the saved-network calls'.
pub open spec fn outcome_lines(w: WifiUiState) -> Seq<Seq<u8>> {
    match w.join_outcome {
        Some(o) => seq![join_outcome_line(o)],
        None => match saved_outcome_line(w.saved_add_outcome, w.saved_remove_outcome) {
            Some(l) => seq![l],
            None => Seq::empty(),
        },
    }
}

/// The hint lines that are not empty (see `hint_lines`): the state hint
/// always, the key hint after a failed join, the device hint after an
/// unsupported scan.
pub open spec fn shown_hints(w: WifiUiState, status: Result<NetworkWifiStatus>) -> Seq<Seq<u8>> {
    let link = match status { Ok(st) => Some(st.link_state), Err(_) => None };
    let status_error = match status { Ok(_) => None, Err(e) => Some(classify_of(e)) };
    let join_failed = w.join_outcome matches Some(Err(_));
    seq![first_hint(link, status_error).spec_bytes()]
        + (if join_failed { seq!["HINT: RECHECK PSK OR SIGNAL".spec_bytes()] } else { Seq::empty() })
        + (if w.scan_error == Some(WifiOpError::Unsupported) { seq!["HINT: SCAN NEEDS A DEVICE".spec_bytes()] } else { Seq::empty() })
}

/// The prompt overlay's lines: its title, the text typed, and the keys.
pub open spec fn prompt_lines(w: WifiUiState) -> Seq<Seq<u8>> {
    match w.prompt {
        Some(p) => seq![
            wifi_prompt_text(p).spec_bytes(),
            text_or(w.prompt_edit@.subrange(0, w.prompt_len as int), ""),
            "ENTER COMMIT  ESC CANCEL  BKSP DELETE".spec_bytes()
        ],
        None => Seq::empty(),
    }
}

/// The wireless page's lines in drawing order: the title and status lines,
/// the scan heading and rows, the saved heading (with "SAVED UNAVAILABLE"
/// for an empty list) and rows, the footer line, the hints, and the prompt
/// overlay.
pub open spec fn wifi_lines(w: WifiUiState, status: Result<NetworkWifiStatus>) -> Seq<Seq<u8>> {
    seq!["WI-FI".spec_bytes()] + wifi_status_lines(status) + seq![scan_header(w)]
        + Seq::new(w.scan_count as nat, |i: int| scan_row(w.scans@[i])) + seq!["SAVED".spec_bytes()]
        + (if w.saved_count == 0 { seq!["SAVED UNAVAILABLE".spec_bytes()] } else { Seq::empty() })
        + Seq::new(w.saved_count as nat, |i: int| saved_row(w.saved@[i])) + outcome_lines(w) + shown_hints(w, status)
        + prompt_lines(w)
}

fn push_wifi_status(lines: &mut Vec<Vec<u8>>, status: &Result<NetworkWifiStatus>)
    ensures
        views(final(lines)@) == views(old(lines)@) + wifi_status_lines(*status),
{
    match status {
        Ok(st) => {
            let mut a = lit("WLAN ");
            push_bytes(&mut a, wifi_link_name(st.link_state).as_bytes());
            push_bytes(&mut a, " SSID ".as_bytes());
            if st.ssid_len > 0 {
                push_bytes(&mut a, ssid_str(&st.ssid, st.ssid_len).as_bytes());
            } else {
                push_bytes(&mut a, "-".as_bytes());
            }
            push_line(lines, a);
            push_line(lines, lit("DEVICE PRESENT"));
        },
        Err(e) => {
            push_line(lines, Vec::new());
            if classify(*e) == WifiOpError::Unsupported {
                push_line(lines, lit("DEVICE: NO WIRELESS DEVICE"));
            } else {
                push_line(lines, lit("DEVICE UNAVAILABLE"));
            }
        },
    }
    assert(views(lines@) =~= views(old(lines)@) + wifi_status_lines(*status));
}

fn scan_header_text(w: &WifiUiState) -> (t: Vec<u8>)
    ensures
        t@ == scan_header(*w),
{
    match w.scan_error {
        Some(e) => {
            let mut t = lit("SCAN FAILED ");
            push_bytes(&mut t, wifi_error_name(e).as_bytes());
            t
        },
        None => if w.scan_count > 0 {
            let mut t = lit("SCAN ");
            push_decimal(&mut t, w.scan_total as u64);
            push_bytes(&mut t, " FOUND (SHOWING ".as_bytes());
            push_decimal(&mut t, w.scan_count as u64);
            push_bytes(&mut t, ")".as_bytes());
            t
        } else {
            lit("SCAN PRESS SCAN")
        },
    }
}

fn push_rows(lines: &mut Vec<Vec<u8>>, w: &WifiUiState, saved: bool)
    requires
        w.wf(),
    ensures
        !saved ==> views(final(lines)@) == views(old(lines)@) + Seq::new(w.scan_count as nat, |i: int| scan_row(w.scans@[i])),
        saved ==> views(final(lines)@) == views(old(lines)@) + Seq::new(w.saved_count as nat, |i: int| saved_row(w.saved@[i])),
{
    let n = if saved { w.saved_count } else { w.scan_count };
    let mut i: usize = 0;
    while i < n
        invariant
            w.wf(),
            n == (if saved { w.saved_count } else { w.scan_count }),
            i <= n,
            !saved ==> views(lines@) == views(old(lines)@) + Seq::new(i as nat, |k: int| scan_row(w.scans@[k])),
            saved ==> views(lines@) == views(old(lines)@) + Seq::new(i as nat, |k: int| saved_row(w.saved@[k])),
        decreases n - i,
    {
        if saved {
            push_line(lines, saved_row_text(&w.saved[i]));
        } else {
            push_line(lines, scan_row_text(&w.scans[i]));
        }
        i = i + 1;
        assert(!saved ==> views(lines@) =~= views(old(lines)@) + Seq::new(i as nat, |k: int| scan_row(w.scans@[k])));
        assert(saved ==> views(lines@) =~= views(old(lines)@) + Seq::new(i as nat, |k: int| saved_row(w.saved@[k])));
    }
}

fn push_outcome(lines: &mut Vec<Vec<u8>>, w: &WifiUiState)
    ensures
        views(final(lines)@) == views(old(lines)@) + outcome_lines(*w),
{
    match &w.join_outcome {
        Some(o) => push_line(lines, join_outcome_text(o)),
        None => match saved_outcome_text(w.saved_add_outcome, w.saved_remove_outcome) {
            Some(l) => push_line(lines, l),
            None => {},
        },
    }
    assert(views(lines@) =~= views(old(lines)@) + outcome_lines(*w));
}

fn push_hints(lines: &mut Vec<Vec<u8>>, w: &WifiUiState, status: &Result<NetworkWifiStatus>)
    ensures
        views(final(lines)@) == views(old(lines)@) + shown_hints(*w, *status),
{
    let (link, status_error) = match status {
        Ok(st) => (Some(st.link_state), None),
        Err(e) => (None, Some(classify(*e))),
    };
    let join_error = match &w.join_outcome {
        Some(Err(e)) => Some(*e),
        _ => None,
    };
    let hints = hint_lines(link, status_error, join_error, w.scan_error);
    push_line(lines, lit(hints[0]));
    if join_error.is_some() {
        push_line(lines, lit(hints[1]));
    }
    if w.scan_error == Some(WifiOpError::Unsupported) {
        push_line(lines, lit(hints[2]));
    }
    assert(views(lines@) =~= views(old(lines)@) + shown_hints(*w, *status));
}

fn push_prompt(lines: &mut Vec<Vec<u8>>, w: &WifiUiState)
    requires
        w.wf(),
    ensures
        views(final(lines)@) == views(old(lines)@) + prompt_lines(*w),
{
    if let Some(p) = w.prompt {
        push_line(lines, lit(wifi_prompt_title(p)));
        let mut typed: Vec<u8> = Vec::new();
        push_text_or(&mut typed, prefix(w.prompt_edit.as_slice(), w.prompt_len), "");
        push_line(lines, typed);
        push_line(lines, lit("ENTER COMMIT  ESC CANCEL  BKSP DELETE"));
    }
    assert(views(lines@) =~= views(old(lines)@) + prompt_lines(*w));
}

/// The wireless page's lines (see `wifi_lines`), from the status read and
/// the page's state.
pub fn wifi_page_lines(w: &WifiUiState, status: Result<NetworkWifiStatus>) -> (lines: Vec<Vec<u8>>)
    requires
        w.wf(),
    ensures
        views(lines@) == wifi_lines(*w, status),
{
    let mut lines: Vec<Vec<u8>> = Vec::new();
    push_line(&mut lines, lit("WI-FI"));
    push_wifi_status(&mut lines, &status);
    push_line(&mut lines, scan_header_text(w));
    push_rows(&mut lines, w, false);
    push_line(&mut lines, lit("SAVED"));
    if w.saved_count == 0 {
        push_line(&mut lines, lit("SAVED UNAVAILABLE"));
    }
    push_rows(&mut lines, w, true);
    push_outcome(&mut lines, w);
    push_hints(&mut lines, w, &status);
    push_prompt(&mut lines, w);
    assert(views(lines@) =~= wifi_lines(*w, status));
    lines
}

} // verus!
