//! Network-service protocol: interfaces, hostname, diagnostics, neighbour and
//! port tables, discovery, wireless control, firewall and sockets.
use vstd::prelude::*;
use vstd::string::StringSliceAdditionalSpecFns;

use crate::abi::{NetworkStatus, NetworkTag, NetworkSocketTag, WifiLinkState, WifiSecurity};
use crate::decode::{
    network_config_mode_from_word, network_config_state_from_word, network_listen_port_kind_from_word,
    network_socket_kind_from_word, network_socket_state_from_word, network_status_error,
    network_status_from_word, packet_backend_from_word, packet_link_state_from_word,
};
use crate::error::{Error, Result};
use crate::message::{
    has_shape, is_request, message_bytes, packed_words, payload, reply_shape, reply_wf, request1, request2,
    request_with_bytes, sends, stream_byte, unpack_from, unpack_outcome, unpacked, word_byte,
    written, Exchange, Handle, RawMessage, IPC_MAX_WORDS, table_count, table_count_of, count_usize,
    request_with_two,
};
use crate::types::{
    NetworkDiagPingStats, NetworkDiscoveryPeer, NetworkFirewallSummary, NetworkInterfaceStatusInfo,
    NetworkListenPort, NetworkNeighborEntry, NetworkSocketInfo, NetworkWifiSavedNetwork,
    NetworkWifiScanEntry, NetworkWifiStatus,
};

verus! {

/// Longest inline name or target the network service decodes; requests
/// within this bound always get a reply.
pub const NETWORK_NAME_BYTES_MAX: usize = 48;
/// Probe budget of one ping-statistics request.
pub const NETWORK_DIAG_PINGS_MAX: usize = 8;

/// What a network-service reply decodes to when its body is `value`:
/// `InvalidArgument` for a reply of the wrong tag or too few words, the error
/// of a status other than success, else `value`.
pub open spec fn network_result<T>(r: RawMessage, tag: u32, min: u32, value: T) -> Result<T> {
    if !reply_shape(r, tag, min) {
        Err(Error::InvalidArgument)
    } else if network_status_from_word(r.words[0]) == NetworkStatus::Success {
        Ok(value)
    } else {
        Err(network_status_error(network_status_from_word(r.words[0])))
    }
}

/// The outcome of a reply under `tag` that carries at least `min` words and
/// nothing but its status (see `network_result`).
pub fn network_check(r: &RawMessage, tag: u32, min: u32) -> (res: Result<()>)
    ensures
        res == network_result(*r, tag, min, ()),
{
    if !has_shape(r, tag, min) {
        return Err(Error::InvalidArgument);
    }
    let status = network_status_from_word(r.words[0]);
    if status == NetworkStatus::Success {
        Ok(())
    } else {
        Err(network_status_error(status))
    }
}

/// The six bytes of a MAC address carried in the low 48 bits of a word,
/// least significant first.
pub open spec fn mac_of(w: u64) -> Seq<u8> {
    seq![
        (w & 0xff) as u8,
        ((w >> 8) & 0xff) as u8,
        ((w >> 16) & 0xff) as u8,
        ((w >> 24) & 0xff) as u8,
        ((w >> 32) & 0xff) as u8,
        ((w >> 40) & 0xff) as u8,
    ]
}

/// Decodes the MAC address carried in the low 48 bits of a word.
pub fn unpack_mac(w: u64) -> (m: [u8; 6])
    ensures
        m@ == mac_of(w),
{
    let m = [
        (w & 0xff) as u8,
        ((w >> 8) & 0xff) as u8,
        ((w >> 16) & 0xff) as u8,
        ((w >> 24) & 0xff) as u8,
        ((w >> 32) & 0xff) as u8,
        ((w >> 40) & 0xff) as u8,
    ];
    assert(m@ =~= mac_of(w));
    m
}

/// Step of counting the network interfaces. A busy or unsupported service
/// reports that error; any other failure status reads as `InvalidArgument`.
pub fn network_interface_count(reply: Option<&RawMessage>) -> (step: Exchange<usize>)
    ensures
        reply is None ==> sends(step, NetworkTag::InterfaceListRequest.spec_code(), Seq::empty()),
        reply matches Some(r) ==> step == Exchange::Done(
            if !reply_shape(*r, NetworkTag::InterfaceListReply.spec_code(), 2) {
                Err::<usize, Error>(Error::InvalidArgument)
            } else if network_status_from_word(r.words[0]) == NetworkStatus::Success {
                Ok(r.words[1] as usize)
            } else if network_status_from_word(r.words[0]) == NetworkStatus::Busy {
                Err(Error::Busy)
            } else if network_status_from_word(r.words[0]) == NetworkStatus::Unsupported {
                Err(Error::Unsupported)
            } else {
                Err(Error::InvalidArgument)
            },
        ),
{
    match reply {
        None => Exchange::Send(RawMessage::empty(NetworkTag::InterfaceListRequest.code())),
        Some(r) => {
            if !has_shape(r, NetworkTag::InterfaceListReply.code(), 2) {
                return Exchange::Done(Err(Error::InvalidArgument));
            }
            Exchange::Done(
                match network_status_from_word(r.words[0]) {
                    NetworkStatus::Success => Ok(r.words[1] as usize),
                    NetworkStatus::Busy => Err(Error::Busy),
                    NetworkStatus::Unsupported => Err(Error::Unsupported),
                    _ => Err(Error::InvalidArgument),
                },
            )
        },
    }
}

/// `info` is the interface record an interface-status reply carries; the
/// resolver counters of word 15 read zero when the reply stops at word 14.
pub open spec fn interface_status_matches(info: NetworkInterfaceStatusInfo, r: RawMessage) -> bool {
    &&& info.index == r.words[1] as u32
    &&& info.backend == packet_backend_from_word(r.words[2])
    &&& info.link_state == packet_link_state_from_word(r.words[3])
    &&& info.mtu == r.words[4] as u32
    &&& info.config_mode == network_config_mode_from_word(r.words[5])
    &&& info.config_state == network_config_state_from_word(r.words[6])
    &&& info.address == r.words[7] as u32
    &&& info.prefix_len == r.words[8] as u8
    &&& info.gateway == r.words[9] as u32
    &&& info.dns_server == r.words[10] as u32
    &&& info.mac@ == mac_of(r.words[11])
    &&& info.rx_packets == r.words[12]
    &&& info.tx_packets == r.words[13]
    &&& info.dropped_packets == r.words[14]
    &&& info.resolver_hits == if r.word_count >= 16 { (r.words[15] >> 32) as u32 } else { 0 }
    &&& info.resolver_misses == if r.word_count >= 16 { (r.words[15] & 0xffff_ffff) as u32 } else { 0 }
}

/// Decodes an interface-status reply: `None` when the service reports no
/// interface at that index.
pub fn network_interface_status_parse_reply(response: &RawMessage) -> (res: Result<Option<NetworkInterfaceStatusInfo>>)
    ensures
        !reply_shape(*response, NetworkTag::InterfaceStatusReply.spec_code(), 15) ==> res == Err::<Option<NetworkInterfaceStatusInfo>, Error>(Error::InvalidArgument),
        reply_shape(*response, NetworkTag::InterfaceStatusReply.spec_code(), 15) ==> {
            let status = network_status_from_word(response.words[0]);
            &&& status == NetworkStatus::NotFound ==> res == Ok::<Option<NetworkInterfaceStatusInfo>, Error>(None)
            &&& (status != NetworkStatus::NotFound && status != NetworkStatus::Success) ==> res == Err::<Option<NetworkInterfaceStatusInfo>, Error>(network_status_error(status))
            &&& status == NetworkStatus::Success ==> (res matches Ok(Some(info)) && interface_status_matches(info, *response))
        },
{
    if !has_shape(response, NetworkTag::InterfaceStatusReply.code(), 15) {
        return Err(Error::InvalidArgument);
    }
    let status = network_status_from_word(response.words[0]);
    if status == NetworkStatus::NotFound {
        return Ok(None);
    }
    if status != NetworkStatus::Success {
        return Err(network_status_error(status));
    }
    let long = response.word_count >= 16;
    Ok(Some(NetworkInterfaceStatusInfo {
        index: response.words[1] as u32,
        backend: packet_backend_from_word(response.words[2]),
        link_state: packet_link_state_from_word(response.words[3]),
        mtu: response.words[4] as u32,
        config_mode: network_config_mode_from_word(response.words[5]),
        config_state: network_config_state_from_word(response.words[6]),
        address: response.words[7] as u32,
        prefix_len: response.words[8] as u8,
        gateway: response.words[9] as u32,
        dns_server: response.words[10] as u32,
        mac: unpack_mac(response.words[11]),
        rx_packets: response.words[12],
        tx_packets: response.words[13],
        dropped_packets: response.words[14],
        resolver_hits: if long { (response.words[15] >> 32) as u32 } else { 0 },
        resolver_misses: if long { (response.words[15] & 0xffff_ffff) as u32 } else { 0 },
    }))
}

/// Step of reading the status of the interface at `index`.
pub fn network_interface_status(index: usize, reply: Option<&RawMessage>) -> (step: Exchange<Option<NetworkInterfaceStatusInfo>>)
    ensures
        reply is None ==> sends(step, NetworkTag::InterfaceStatusRequest.spec_code(), seq![index as u64]),
        reply matches Some(r) ==> {
            let shape = reply_shape(*r, NetworkTag::InterfaceStatusReply.spec_code(), 15);
            let status = network_status_from_word(r.words[0]);
            &&& !shape ==> step == Exchange::<Option<NetworkInterfaceStatusInfo>>::Done(Err(Error::InvalidArgument))
            &&& shape && status == NetworkStatus::NotFound ==> step == Exchange::<Option<NetworkInterfaceStatusInfo>>::Done(Ok(None))
            &&& (shape && status != NetworkStatus::NotFound && status != NetworkStatus::Success) ==> step == Exchange::<Option<NetworkInterfaceStatusInfo>>::Done(Err(network_status_error(status)))
            &&& shape && status == NetworkStatus::Success ==> (step matches Exchange::Done(Ok(Some(info))) && interface_status_matches(info, *r))
        },
{
    match reply {
        None => Exchange::Send(request1(NetworkTag::InterfaceStatusRequest.code(), index as u64)),
        Some(r) => Exchange::Done(network_interface_status_parse_reply(r)),
    }
}

/// The outcome of decoding a hostname reply into a buffer of `cap` bytes:
/// the name's length, `BufferTooSmall` when the buffer or the reply's words
/// are too short for it.
pub open spec fn hostname_result(r: RawMessage, cap: nat) -> Result<usize> {
    match network_result(r, NetworkTag::HostnameGetReply.spec_code(), 2, ()) {
        Err(e) => Err(e),
        Ok(_) => match unpack_outcome(r, 2, (r.words[1] as usize) as nat, cap) {
            Err(e) => Err(e),
            Ok(_) => Ok(r.words[1] as usize),
        },
    }
}

/// Decodes a hostname reply into `name`; the outcome is the name's length
/// and the name fills the front of the buffer.
pub fn network_hostname_parse_reply(response: &RawMessage, name: &mut [u8]) -> (res: Result<usize>)
    requires
        response.wf(),
    ensures
        res == hostname_result(*response, old(name)@.len()),
        final(name)@.len() == old(name)@.len(),
        res matches Ok(n) ==> final(name)@.subrange(0, n as int) == message_bytes(*response, 2, n as nat)
            && final(name)@.subrange(n as int, old(name)@.len() as int) == old(name)@.subrange(n as int, old(name)@.len() as int),
        res is Err ==> final(name)@ == old(name)@,
{
    match network_check(response, NetworkTag::HostnameGetReply.code(), 2) {
        Ok(()) => {},
        Err(e) => return Err(e),
    }
    let len = response.words[1] as usize;
    match unpack_from(response, 2, len, name) {
        Ok(()) => Ok(len),
        Err(e) => Err(e),
    }
}

/// Step of reading the hostname into `name`.
pub fn network_hostname_get(name: &mut [u8], reply: Option<&RawMessage>) -> (step: Exchange<usize>)
    requires
        reply_wf(reply),
    ensures
        final(name)@.len() == old(name)@.len(),
        reply is None ==> sends(step, NetworkTag::HostnameGetRequest.spec_code(), Seq::empty()) && final(name)@ == old(name)@,
        reply matches Some(r) ==> step == Exchange::Done(hostname_result(*r, old(name)@.len())),
        reply is Some ==> (step matches Exchange::Done(Ok(n)) ==> final(name)@.subrange(0, n as int) == message_bytes(*reply.unwrap(), 2, n as nat)
            && final(name)@.subrange(n as int, old(name)@.len() as int) == old(name)@.subrange(n as int, old(name)@.len() as int)),
        reply is Some ==> (step matches Exchange::Done(Err(_)) ==> final(name)@ == old(name)@),
{
    match reply {
        None => Exchange::Send(RawMessage::empty(NetworkTag::HostnameGetRequest.code())),
        Some(r) => Exchange::Done(network_hostname_parse_reply(r, name)),
    }
}

/// The words of a request that carries a length word and then the packed bytes.
pub open spec fn counted_bytes_words(bytes: Seq<u8>) -> Seq<u64> {
    seq![bytes.len() as u64] + packed_words(bytes)
}

/// Builds the hostname-set request: the name's length, then its bytes;
/// `BufferTooSmall` for a name over `NETWORK_NAME_BYTES_MAX` bytes.
pub fn network_hostname_set_request(name: &str) -> (res: Result<RawMessage>)
    ensures
        name.spec_bytes().len() > NETWORK_NAME_BYTES_MAX ==> res == Err::<RawMessage, Error>(Error::BufferTooSmall),
        name.spec_bytes().len() <= NETWORK_NAME_BYTES_MAX ==> (res matches Ok(m)
            && is_request(m, NetworkTag::HostnameSetRequest.spec_code(), counted_bytes_words(name.spec_bytes()))),
{
    let bytes = name.as_bytes();
    if bytes.len() > NETWORK_NAME_BYTES_MAX {
        return Err(Error::BufferTooSmall);
    }
    let head: [u64; 1] = [bytes.len() as u64];
    assert(head@ =~= seq![bytes@.len() as u64]);
    Ok(request_with_bytes(NetworkTag::HostnameSetRequest.code(), head.as_slice(), bytes))
}

/// Step of setting the hostname.
pub fn network_hostname_set(name: &str, reply: Option<&RawMessage>) -> (step: Exchange<()>)
    ensures
        reply is None && name.spec_bytes().len() > NETWORK_NAME_BYTES_MAX ==> step == Exchange::<()>::Done(Err(Error::BufferTooSmall)),
        reply is None && name.spec_bytes().len() <= NETWORK_NAME_BYTES_MAX ==> sends(step, NetworkTag::HostnameSetRequest.spec_code(), counted_bytes_words(name.spec_bytes())),
        reply matches Some(r) ==> step == Exchange::Done(network_result(*r, NetworkTag::HostnameSetReply.spec_code(), 1, ())),
{
    match reply {
        None => match network_hostname_set_request(name) {
            Ok(m) => Exchange::Send(m),
            Err(e) => Exchange::Done(Err(e)),
        },
        Some(r) => Exchange::Done(network_check(r, NetworkTag::HostnameSetReply.code(), 1)),
    }
}

/// `count` clamped to one through `NETWORK_DIAG_PINGS_MAX` probes.
pub open spec fn probe_count(count: usize) -> u64 {
    if count < 1 {
        1
    } else if count > NETWORK_DIAG_PINGS_MAX {
        NETWORK_DIAG_PINGS_MAX as u64
    } else {
        count as u64
    }
}

/// The words of a ping-statistics request.
pub open spec fn diag_ping_words(target: Seq<u8>, count: usize) -> Seq<u64> {
    seq![target.len() as u64, probe_count(count)] + packed_words(target)
}

/// Builds the ping-statistics request: the target's length, the probe count
/// clamped to one through `NETWORK_DIAG_PINGS_MAX`, then the target's bytes;
/// `BufferTooSmall` for a target over `NETWORK_NAME_BYTES_MAX` bytes.
pub fn network_diag_ping_stats_request(target: &str, count: usize) -> (res: Result<RawMessage>)
    ensures
        target.spec_bytes().len() > NETWORK_NAME_BYTES_MAX ==> res == Err::<RawMessage, Error>(Error::BufferTooSmall),
        target.spec_bytes().len() <= NETWORK_NAME_BYTES_MAX ==> (res matches Ok(m)
            && is_request(m, NetworkTag::DiagPingStatsRequest.spec_code(), diag_ping_words(target.spec_bytes(), count))),
{
    let bytes = target.as_bytes();
    if bytes.len() > NETWORK_NAME_BYTES_MAX {
        return Err(Error::BufferTooSmall);
    }
    let probes: u64 = if count < 1 {
        1
    } else if count > NETWORK_DIAG_PINGS_MAX {
        NETWORK_DIAG_PINGS_MAX as u64
    } else {
        count as u64
    };
    let head: [u64; 2] = [bytes.len() as u64, probes];
    assert(head@ =~= seq![bytes@.len() as u64, probe_count(count)]);
    Ok(request_with_bytes(NetworkTag::DiagPingStatsRequest.code(), head.as_slice(), bytes))
}

/// The statistics a ping-statistics reply carries in words 1 to 8.
pub open spec fn diag_ping_stats_of(r: RawMessage) -> NetworkDiagPingStats {
    NetworkDiagPingStats {
        resolved_address: r.words[1] as u32,
        sent: r.words[2] as u32,
        received: r.words[3] as u32,
        min_ms: r.words[4],
        max_ms: r.words[5],
        avg_ms: r.words[6],
        jitter_ms: r.words[7],
        loss_permil: r.words[8],
    }
}

/// What a ping-statistics reply decodes to. A timeout still carries the
/// summary (nothing received, full loss), so it decodes like success.
pub open spec fn diag_ping_result(r: RawMessage) -> Result<NetworkDiagPingStats> {
    let status = network_status_from_word(r.words[0]);
    if !reply_shape(r, NetworkTag::DiagPingStatsReply.spec_code(), 9) {
        Err(Error::InvalidArgument)
    } else if status == NetworkStatus::Success || status == NetworkStatus::Timeout {
        Ok(diag_ping_stats_of(r))
    } else {
        Err(network_status_error(status))
    }
}

/// Decodes a ping-statistics reply.
pub fn network_diag_ping_stats_parse_reply(response: &RawMessage) -> (res: Result<NetworkDiagPingStats>)
    ensures
        res == diag_ping_result(*response),
{
    if !has_shape(response, NetworkTag::DiagPingStatsReply.code(), 9) {
        return Err(Error::InvalidArgument);
    }
    let status = network_status_from_word(response.words[0]);
    if status != NetworkStatus::Success && status != NetworkStatus::Timeout {
        return Err(network_status_error(status));
    }
    Ok(NetworkDiagPingStats {
        resolved_address: response.words[1] as u32,
        sent: response.words[2] as u32,
        received: response.words[3] as u32,
        min_ms: response.words[4],
        max_ms: response.words[5],
        avg_ms: response.words[6],
        jitter_ms: response.words[7],
        loss_permil: response.words[8],
    })
}

/// Step of running `count` ping probes against `target` and summarising them.
pub fn network_diag_ping_stats(target: &str, count: usize, reply: Option<&RawMessage>) -> (step: Exchange<NetworkDiagPingStats>)
    ensures
        reply is None && target.spec_bytes().len() > NETWORK_NAME_BYTES_MAX ==> step == Exchange::<NetworkDiagPingStats>::Done(Err(Error::BufferTooSmall)),
        reply is None && target.spec_bytes().len() <= NETWORK_NAME_BYTES_MAX ==> sends(step, NetworkTag::DiagPingStatsRequest.spec_code(), diag_ping_words(target.spec_bytes(), count)),
        reply matches Some(r) ==> step == Exchange::Done(diag_ping_result(*r)),
{
    match reply {
        None => match network_diag_ping_stats_request(target, count) {
            Ok(m) => Exchange::Send(m),
            Err(e) => Exchange::Done(Err(e)),
        },
        Some(r) => Exchange::Done(network_diag_ping_stats_parse_reply(r)),
    }
}

} // verus!

verus! {

/// The entry count of a network table reply: the reply's own outcome, then
/// the count of word 1 checked against the caller's room `cap` and the
/// reply's word count (`head` header words, `stride` words per entry).
pub open spec fn network_table(r: RawMessage, tag: u32, head: nat, stride: nat, cap: nat) -> Result<nat> {
    match network_result(r, tag, 2, ()) {
        Err(e) => Err(e),
        Ok(_) => table_count(r, 1, head, stride, cap),
    }
}

fn network_table_of(r: &RawMessage, tag: u32, head: usize, stride: usize, cap: usize) -> (res: Result<usize>)
    requires
        r.wf(),
        head <= 16,
        1 <= stride <= 16,
    ensures
        res == count_usize(network_table(*r, tag, head as nat, stride as nat, cap as nat)),
        res matches Ok(c) ==> head + c * stride == r.word_count && c <= cap && c <= 16,
{
    match network_check(r, tag, 2) {
        Ok(()) => {},
        Err(e) => return Err(e),
    }
    table_count_of(r, 1, head, stride, cap)
}

/// `e` is the neighbour entry carried in the two words at `b`.
pub open spec fn neighbor_matches(e: NetworkNeighborEntry, r: RawMessage, b: int) -> bool {
    e.address == r.words[b] as u32 && e.mac@ == mac_of(r.words[b + 1])
}

/// `after` is `before` with the neighbour table of reply `r` decoded into
/// its front, and `res` the outcome; nothing changes on an error.
pub open spec fn neighbors_decoded(r: RawMessage, before: Seq<NetworkNeighborEntry>, after: Seq<NetworkNeighborEntry>, res: Result<usize>) -> bool {
    &&& after.len() == before.len()
    &&& res == count_usize(network_table(r, NetworkTag::NeighborDumpReply.spec_code(), 2, 2, before.len()))
    &&& res is Err ==> after == before
    &&& res matches Ok(c) ==> (forall|i: int| 0 <= i < c ==> neighbor_matches(#[trigger] after[i], r, 2 + 2 * i))
        && (forall|i: int| c <= i < before.len() ==> after[i] == before[i])
}

/// Decodes a neighbour-table reply into `neighbors`.
pub fn network_neighbor_parse_reply(response: &RawMessage, neighbors: &mut [NetworkNeighborEntry]) -> (res: Result<usize>)
    requires
        response.wf(),
    ensures
        neighbors_decoded(*response, old(neighbors)@, final(neighbors)@, res),
{
    let count = match network_table_of(response, NetworkTag::NeighborDumpReply.code(), 2, 2, neighbors.len()) {
        Ok(c) => c,
        Err(e) => return Err(e),
    };
    let ghost before = neighbors@;
    let mut i: usize = 0;
    while i < count
        invariant
            response.wf(),
            2 + count * 2 == response.word_count,
            count <= neighbors@.len(),
            neighbors@.len() == before.len(),
            i <= count,
            forall|k: int| 0 <= k < i ==> neighbor_matches(#[trigger] neighbors@[k], *response, 2 + 2 * k),
            forall|k: int| i <= k < neighbors@.len() ==> neighbors@[k] == before[k],
        decreases count - i,
    {
        let base = 2 + i * 2;
        neighbors[i] = NetworkNeighborEntry {
            address: response.words[base] as u32,
            mac: unpack_mac(response.words[base + 1]),
        };
        i = i + 1;
    }
    Ok(count)
}

/// Step of reading the neighbour table into `neighbors`.
pub fn network_neighbor_list(neighbors: &mut [NetworkNeighborEntry], reply: Option<&RawMessage>) -> (step: Exchange<usize>)
    requires
        reply_wf(reply),
    ensures
        reply is None ==> sends(step, NetworkTag::NeighborDumpRequest.spec_code(), Seq::empty()) && final(neighbors)@ == old(neighbors)@,
        reply matches Some(r) ==> exists|res: Result<usize>| step == Exchange::Done(res) && neighbors_decoded(*r, old(neighbors)@, final(neighbors)@, res),
{
    match reply {
        None => Exchange::Send(RawMessage::empty(NetworkTag::NeighborDumpRequest.code())),
        Some(r) => Exchange::Done(network_neighbor_parse_reply(r, neighbors)),
    }
}

/// The listening port carried in one word: its kind in the top sixteen
/// bits, the port in the low sixteen.
pub open spec fn listen_port_of(w: u64) -> NetworkListenPort {
    NetworkListenPort { kind: network_listen_port_kind_from_word(w >> 48), port: (w & 0xffff) as u16 }
}

/// `after` is `before` with the listening-port table of reply `r` decoded
/// into its front, and `res` the outcome; nothing changes on an error.
pub open spec fn listen_ports_decoded(r: RawMessage, before: Seq<NetworkListenPort>, after: Seq<NetworkListenPort>, res: Result<usize>) -> bool {
    &&& after.len() == before.len()
    &&& res == count_usize(network_table(r, NetworkTag::ListenPortsReply.spec_code(), 2, 1, before.len()))
    &&& res is Err ==> after == before
    &&& res matches Ok(c) ==> written(before, after, 0, c as int, |i: int| listen_port_of(r.words[2 + i]))
}

/// Decodes a listening-port reply into `ports`.
pub fn network_listen_ports_parse_reply(response: &RawMessage, ports: &mut [NetworkListenPort]) -> (res: Result<usize>)
    requires
        response.wf(),
    ensures
        listen_ports_decoded(*response, old(ports)@, final(ports)@, res),
{
    let count = match network_table_of(response, NetworkTag::ListenPortsReply.code(), 2, 1, ports.len()) {
        Ok(c) => c,
        Err(e) => return Err(e),
    };
    let ghost before = ports@;
    let mut i: usize = 0;
    while i < count
        invariant
            response.wf(),
            2 + count * 1 == response.word_count,
            count <= ports@.len(),
            ports@.len() == before.len(),
            i <= count,
            forall|k: int| 0 <= k < i ==> ports@[k] == listen_port_of(response.words[2 + k]),
            forall|k: int| i <= k < ports@.len() ==> ports@[k] == before[k],
        decreases count - i,
    {
        let word = response.words[2 + i];
        ports[i] = NetworkListenPort {
            kind: network_listen_port_kind_from_word(word >> 48),
            port: (word & 0xffff) as u16,
        };
        i = i + 1;
    }
    Ok(count)
}

/// Step of reading the listening ports into `ports`.
pub fn network_listen_ports(ports: &mut [NetworkListenPort], reply: Option<&RawMessage>) -> (step: Exchange<usize>)
    requires
        reply_wf(reply),
    ensures
        reply is None ==> sends(step, NetworkTag::ListenPortsRequest.spec_code(), Seq::empty()) && final(ports)@ == old(ports)@,
        reply matches Some(r) ==> exists|res: Result<usize>| step == Exchange::Done(res) && listen_ports_decoded(*r, old(ports)@, final(ports)@, res),
{
    match reply {
        None => Exchange::Send(RawMessage::empty(NetworkTag::ListenPortsRequest.code())),
        Some(r) => Exchange::Done(network_listen_ports_parse_reply(r, ports)),
    }
}

/// The name length a discovery entry's first word announces.
pub open spec fn peer_name_len(r: RawMessage, i: int) -> u64 {
    (r.words[2 + 3 * i] >> 24) & 0xff
}

/// Every discovery entry up to and including `i` announces a name that fits.
pub open spec fn peers_fit_upto(r: RawMessage, i: int) -> bool {
    forall|j: int| 0 <= j <= i ==> #[trigger] peer_name_len(r, j) <= 15
}

/// `p` is the discovery peer carried in the three words at `b`: address,
/// name length and age in the first, the fifteen name bytes in the others.
pub open spec fn peer_matches(p: NetworkDiscoveryPeer, r: RawMessage, b: int) -> bool {
    let w = r.words[b];
    &&& p.address == (w >> 32) as u32
    &&& p.name_len == ((w >> 24) & 0xff) as usize
    &&& p.name@ == unpacked(seq![r.words[b + 1], r.words[b + 2]], 15)
    &&& p.age_ms == (w & 0xff_ffff) as u32
}

/// `after` is `before` with the discovery table of reply `r` decoded into its
/// front and `res` the outcome. An entry whose name is longer than fifteen
/// bytes stops the decoding with `InvalidArgument`; the entries before it
/// stay decoded.
pub open spec fn peers_decoded(r: RawMessage, before: Seq<NetworkDiscoveryPeer>, after: Seq<NetworkDiscoveryPeer>, res: Result<usize>) -> bool {
    let table = network_table(r, NetworkTag::DiscoveryPeersReply.spec_code(), 2, 3, before.len());
    &&& after.len() == before.len()
    &&& table matches Err(e) ==> res == Err::<usize, Error>(e) && after == before
    &&& table matches Ok(c) ==> {
        &&& res == if peers_fit_upto(r, c - 1) { Ok::<usize, Error>(c as usize) } else { Err(Error::InvalidArgument) }
        &&& forall|i: int| 0 <= i < c && peers_fit_upto(r, i) ==> peer_matches(#[trigger] after[i], r, 2 + 3 * i)
        &&& forall|i: int| 0 <= i < before.len() && !(i < c && peers_fit_upto(r, i)) ==> after[i] == before[i]
    }
}

/// The fifteen name bytes carried in two words, least significant first.
fn peer_name(w1: u64, w2: u64) -> (name: [u8; 15])
    ensures
        name@ == unpacked(seq![w1, w2], 15),
{
    let mut name = [0u8; 15];
    let mut k: usize = 0;
    while k < 15
        invariant
            k <= 15,
            forall|t: int| 0 <= t < k ==> name@[t] == stream_byte(seq![w1, w2], t),
        decreases 15 - k,
    {
        let w = if k < 8 { w1 } else { w2 };
        name[k] = word_byte(w, k % 8);
        k = k + 1;
    }
    assert(name@ =~= unpacked(seq![w1, w2], 15));
    name
}

/// Decodes a discovery reply into `peers`.
pub fn network_discovery_peers_parse_reply(response: &RawMessage, peers: &mut [NetworkDiscoveryPeer]) -> (res: Result<usize>)
    requires
        response.wf(),
    ensures
        peers_decoded(*response, old(peers)@, final(peers)@, res),
{
    let count = match network_table_of(response, NetworkTag::DiscoveryPeersReply.code(), 2, 3, peers.len()) {
        Ok(c) => c,
        Err(e) => return Err(e),
    };
    let ghost before = peers@;
    let mut i: usize = 0;
    while i < count
        invariant
            response.wf(),
            2 + count * 3 == response.word_count,
            count <= peers@.len(),
            before == old(peers)@,
            count_usize(network_table(*response, NetworkTag::DiscoveryPeersReply.spec_code(), 2, 3, before.len())) == Ok::<usize, Error>(count),
            peers@.len() == before.len(),
            i <= count,
            peers_fit_upto(*response, i - 1),
            forall|k: int| 0 <= k < i ==> peer_matches(#[trigger] peers@[k], *response, 2 + 3 * k),
            forall|k: int| i <= k < peers@.len() ==> peers@[k] == before[k],
        decreases count - i,
    {
        let base = 2 + i * 3;
        let word = response.words[base];
        let len_word: u64 = (word >> 24) & 0xff;
        assert(len_word <= 0xff) by (bit_vector)
            requires
                len_word == (word >> 24) & 0xff,
        ;
        let name_len = len_word as usize;
        if name_len > 15 {
            proof {
                assert(peer_name_len(*response, i as int) > 15);
                assert forall|k: int| 0 <= k < i implies peers_fit_upto(*response, k) by {
                    assert forall|j: int| 0 <= j <= k implies #[trigger] peer_name_len(*response, j) <= 15 by {
                        assert(peers_fit_upto(*response, i - 1));
                    }
                }
                assert forall|k: int| i <= k < count implies !peers_fit_upto(*response, k) by {
                    assert(peer_name_len(*response, i as int) > 15);
                }
            }
            return Err(Error::InvalidArgument);
        }
        peers[i] = NetworkDiscoveryPeer {
            address: (word >> 32) as u32,
            name_len,
            name: peer_name(response.words[base + 1], response.words[base + 2]),
            age_ms: (word & 0xff_ffff) as u32,
        };
        proof {
            assert(peer_name_len(*response, i as int) <= 15);
        }
        i = i + 1;
    }
    Ok(count)
}

/// Step of listing the discovery peers heard within the last `window_ms`
/// milliseconds into `peers`.
pub fn network_discovery_peers(window_ms: u64, peers: &mut [NetworkDiscoveryPeer], reply: Option<&RawMessage>) -> (step: Exchange<usize>)
    requires
        reply_wf(reply),
    ensures
        reply is None ==> sends(step, NetworkTag::DiscoveryPeersRequest.spec_code(), seq![window_ms]) && final(peers)@ == old(peers)@,
        reply matches Some(r) ==> exists|res: Result<usize>| step == Exchange::Done(res) && peers_decoded(*r, old(peers)@, final(peers)@, res),
{
    match reply {
        None => Exchange::Send(request1(NetworkTag::DiscoveryPeersRequest.code(), window_ms)),
        Some(r) => Exchange::Done(network_discovery_peers_parse_reply(r, peers)),
    }
}

} // verus!

verus! {

/// Longest SSID a wireless request or record carries.
pub const NETWORK_WIFI_SSID_BYTES_MAX: usize = 32;
/// Longest pre-shared key a wireless request carries.
pub const NETWORK_WIFI_PSK_BYTES_MAX: usize = 64;
/// Entry room that always holds a whole scan reply (the service sends at
/// most two entries per reply).
pub const NETWORK_WIFI_SCAN_REPLY_ENTRIES_MAX: usize = 2;
/// Entry room that always holds a whole saved-network reply.
pub const NETWORK_WIFI_SAVED_REPLY_ENTRIES_MAX: usize = 2;
/// Words per scan entry in a scan reply.
pub const WIFI_SCAN_ENTRY_WORDS: usize = 6;
/// Words per saved-network entry in a saved-network reply.
pub const WIFI_SAVED_ENTRY_WORDS: usize = 5;

/// The wireless link state a word names, if any.
pub open spec fn wifi_link_state_of(w: u64) -> Option<WifiLinkState> {
    if w == 0 {
        Some(WifiLinkState::Down)
    } else if w == 1 {
        Some(WifiLinkState::Scanning)
    } else if w == 2 {
        Some(WifiLinkState::Authenticating)
    } else if w == 3 {
        Some(WifiLinkState::Associating)
    } else if w == 4 {
        Some(WifiLinkState::Connected)
    } else {
        None
    }
}

fn wifi_link_state_from_word(w: u64) -> (res: Result<WifiLinkState>)
    ensures
        res == match wifi_link_state_of(w) {
            Some(s) => Ok::<WifiLinkState, Error>(s),
            None => Err(Error::InvalidArgument),
        },
{
    if w == 0 {
        Ok(WifiLinkState::Down)
    } else if w == 1 {
        Ok(WifiLinkState::Scanning)
    } else if w == 2 {
        Ok(WifiLinkState::Authenticating)
    } else if w == 3 {
        Ok(WifiLinkState::Associating)
    } else if w == 4 {
        Ok(WifiLinkState::Connected)
    } else {
        Err(Error::InvalidArgument)
    }
}

/// The wireless security a word names, if any.
pub open spec fn wifi_security_of(w: u64) -> Option<WifiSecurity> {
    if w == 0 {
        Some(WifiSecurity::Open)
    } else if w == 1 {
        Some(WifiSecurity::Wpa2)
    } else if w == 2 {
        Some(WifiSecurity::Wpa3)
    } else if w == 3 {
        Some(WifiSecurity::Unknown)
    } else {
        None
    }
}

/// Decodes a wireless security word; `InvalidArgument` for a word that names
/// none.
pub fn network_wifi_security_from_word(w: u64) -> (res: Result<WifiSecurity>)
    ensures
        res == match wifi_security_of(w) {
            Some(s) => Ok::<WifiSecurity, Error>(s),
            None => Err(Error::InvalidArgument),
        },
{
    if w == 0 {
        Ok(WifiSecurity::Open)
    } else if w == 1 {
        Ok(WifiSecurity::Wpa2)
    } else if w == 2 {
        Ok(WifiSecurity::Wpa3)
    } else if w == 3 {
        Ok(WifiSecurity::Unknown)
    } else {
        Err(Error::InvalidArgument)
    }
}

/// The 32-byte SSID field: the first `len` bytes of the stream carried by
/// the four words at `start`, then zeros.
pub open spec fn ssid_bytes(r: RawMessage, start: int, len: nat) -> Seq<u8> {
    Seq::new(32, |k: int| if k < len { stream_byte(r.words@.subrange(start, start + 4), k) } else { 0u8 })
}

fn ssid_from(r: &RawMessage, start: usize, len: usize) -> (ssid: [u8; 32])
    requires
        start + 4 <= 16,
        len <= 32,
    ensures
        ssid@ == ssid_bytes(*r, start as int, len as nat),
{
    let ghost ws = r.words@.subrange(start as int, start + 4);
    let mut ssid = [0u8; 32];
    let mut k: usize = 0;
    while k < len
        invariant
            start + 4 <= 16,
            len <= 32,
            k <= len,
            ws == r.words@.subrange(start as int, start + 4),
            forall|t: int| 0 <= t < k ==> ssid@[t] == stream_byte(ws, t),
            forall|t: int| k <= t < 32 ==> ssid@[t] == 0u8,
        decreases len - k,
    {
        assert(ws[(k / 8) as int] == r.words[start + k / 8]);
        ssid[k] = word_byte(r.words[start + k / 8], k % 8);
        k = k + 1;
    }
    assert(ssid@ =~= ssid_bytes(*r, start as int, len as nat));
    ssid
}

/// The six BSSID bytes carried in the low 48 bits of a word, most
/// significant first.
pub open spec fn bssid_of(w: u64) -> Seq<u8> {
    let b = w & 0xffff_ffff_ffff;
    seq![(b >> 40) as u8, (b >> 32) as u8, (b >> 24) as u8, (b >> 16) as u8, (b >> 8) as u8, b as u8]
}

/// An SSID-length word field beyond the 32-byte limit, or a security word
/// that names nothing, makes scan entry `i` undecodable.
pub open spec fn scan_entry_ok(r: RawMessage, i: int) -> bool {
    let w1 = r.words[3 + 6 * i + 1];
    (w1 >> 56) <= 32 && wifi_security_of((w1 >> 48) & 0xff) is Some
}

/// Every scan entry up to and including `i` decodes.
pub open spec fn scan_ok_upto(r: RawMessage, i: int) -> bool {
    forall|j: int| 0 <= j <= i ==> #[trigger] scan_entry_ok(r, j)
}

/// `e` is the scan entry carried in the six words at `b`: channel, signal and
/// BSSID in the first, SSID length, security and the SSID bytes from the
/// second on.
pub open spec fn scan_entry_matches(e: NetworkWifiScanEntry, r: RawMessage, b: int) -> bool {
    let w0 = r.words[b];
    let w1 = r.words[b + 1];
    &&& e.bssid@ == bssid_of(w0)
    &&& e.channel == (w0 >> 56) as u8
    &&& e.rssi == (((w0 >> 48) & 0xff) as u8) as i8
    &&& e.ssid_len == (w1 >> 56) as usize
    &&& e.ssid@ == ssid_bytes(r, b + 1, e.ssid_len as nat)
    &&& wifi_security_of((w1 >> 48) & 0xff) == Some(e.security)
}

/// The number of scan entries a reply carries, checked against its word
/// count (`InvalidArgument`) and then against the caller's room `cap`
/// (`BufferTooSmall`).
pub open spec fn carried_count(r: RawMessage, tag: u32, stride: nat, cap: nat) -> Result<nat> {
    let carried = (r.words[2] as usize) as nat;
    match network_result(r, tag, 3, ()) {
        Err(e) => Err(e),
        Ok(_) => if r.word_count != 3 + carried * stride {
            Err(Error::InvalidArgument)
        } else if carried > cap {
            Err(Error::BufferTooSmall)
        } else {
            Ok(carried)
        },
    }
}

fn carried_count_of(r: &RawMessage, tag: u32, stride: usize, cap: usize) -> (res: Result<usize>)
    requires
        r.wf(),
        1 <= stride <= 16,
    ensures
        res == count_usize(carried_count(*r, tag, stride as nat, cap as nat)),
        res matches Ok(c) ==> 3 + c * stride == r.word_count && c <= cap && c <= 16,
{
    match network_check(r, tag, 3) {
        Ok(()) => {},
        Err(e) => return Err(e),
    }
    let carried = r.words[2] as usize;
    if carried > 16 {
        proof {
            assert(carried * stride >= carried) by (nonlinear_arith)
                requires
                    stride >= 1,
            ;
        }
        return Err(Error::InvalidArgument);
    }
    proof {
        assert(carried * stride <= 16 * 16) by (nonlinear_arith)
            requires
                carried <= 16,
                stride <= 16,
        ;
    }
    if r.word_count as usize != 3 + carried * stride {
        return Err(Error::InvalidArgument);
    }
    if carried > cap {
        return Err(Error::BufferTooSmall);
    }
    Ok(carried)
}

/// `after` is `before` with the scan entries of reply `r` decoded into its
/// front and `res` the outcome: the total the service found. An undecodable
/// entry stops the decoding with `InvalidArgument`; the entries before it
/// stay decoded.
pub open spec fn scan_decoded(r: RawMessage, before: Seq<NetworkWifiScanEntry>, after: Seq<NetworkWifiScanEntry>, res: Result<usize>) -> bool {
    let table = carried_count(r, NetworkTag::WifiScanReply.spec_code(), 6, before.len());
    &&& after.len() == before.len()
    &&& table matches Err(e) ==> res == Err::<usize, Error>(e) && after == before
    &&& table matches Ok(c) ==> {
        &&& res == if scan_ok_upto(r, c - 1) { Ok::<usize, Error>(r.words[1] as usize) } else { Err(Error::InvalidArgument) }
        &&& forall|i: int| 0 <= i < c && scan_ok_upto(r, i) ==> scan_entry_matches(#[trigger] after[i], r, 3 + 6 * i)
        &&& forall|i: int| 0 <= i < before.len() && !(i < c && scan_ok_upto(r, i)) ==> after[i] == before[i]
    }
}

/// Decodes a wireless scan reply into `entries`; the outcome is the number
/// of networks the service found, which may exceed the entries carried.
pub fn network_wifi_scan_parse_reply(response: &RawMessage, entries: &mut [NetworkWifiScanEntry]) -> (res: Result<usize>)
    requires
        response.wf(),
    ensures
        scan_decoded(*response, old(entries)@, final(entries)@, res),
{
    let count = match carried_count_of(response, NetworkTag::WifiScanReply.code(), WIFI_SCAN_ENTRY_WORDS, entries.len()) {
        Ok(c) => c,
        Err(e) => return Err(e),
    };
    let ghost before = entries@;
    let mut i: usize = 0;
    while i < count
        invariant
            response.wf(),
            3 + count * 6 == response.word_count,
            count <= entries@.len(),
            before == old(entries)@,
            count_usize(carried_count(*response, NetworkTag::WifiScanReply.spec_code(), 6, before.len())) == Ok::<usize, Error>(count),
            entries@.len() == before.len(),
            i <= count,
            scan_ok_upto(*response, i - 1),
            forall|k: int| 0 <= k < i ==> scan_entry_matches(#[trigger] entries@[k], *response, 3 + 6 * k),
            forall|k: int| i <= k < entries@.len() ==> entries@[k] == before[k],
        decreases count - i,
    {
        let base = 3 + i * WIFI_SCAN_ENTRY_WORDS;
        let word0 = response.words[base];
        let word1 = response.words[base + 1];
        let len_word: u64 = word1 >> 56;
        assert(len_word <= 0xff) by (bit_vector)
            requires
                len_word == word1 >> 56,
        ;
        let ssid_len = len_word as usize;
        let security = if ssid_len > NETWORK_WIFI_SSID_BYTES_MAX {
            Err(Error::InvalidArgument)
        } else {
            network_wifi_security_from_word((word1 >> 48) & 0xff)
        };
        let security = match security {
            Ok(s) => s,
            Err(e) => {
                proof {
                    assert(!scan_entry_ok(*response, i as int));
                    assert forall|k: int| 0 <= k < i implies scan_ok_upto(*response, k) by {
                        assert forall|j: int| 0 <= j <= k implies #[trigger] scan_entry_ok(*response, j) by {
                            assert(scan_ok_upto(*response, i - 1));
                        }
                    }
                    assert forall|k: int| i <= k < count implies !scan_ok_upto(*response, k) by {
                        assert(!scan_entry_ok(*response, i as int));
                    }
                }
                return Err(e);
            },
        };
        let b48 = word0 & 0xffff_ffff_ffff;
        let bssid = [
            (b48 >> 40) as u8,
            (b48 >> 32) as u8,
            (b48 >> 24) as u8,
            (b48 >> 16) as u8,
            (b48 >> 8) as u8,
            b48 as u8,
        ];
        assert(bssid@ =~= bssid_of(word0));
        entries[i] = NetworkWifiScanEntry {
            bssid,
            channel: (word0 >> 56) as u8,
            rssi: ((word0 >> 48) & 0xff) as u8 as i8,
            ssid_len,
            ssid: ssid_from(response, base + 1, ssid_len),
            security,
        };
        proof {
            assert(scan_entry_ok(*response, i as int));
        }
        i = i + 1;
    }
    Ok(response.words[1] as usize)
}

/// Step of scanning for wireless networks into `entries`.
pub fn network_wifi_scan(entries: &mut [NetworkWifiScanEntry], reply: Option<&RawMessage>) -> (step: Exchange<usize>)
    requires
        reply_wf(reply),
    ensures
        reply is None ==> sends(step, NetworkTag::WifiScanRequest.spec_code(), Seq::empty()) && final(entries)@ == old(entries)@,
        reply matches Some(r) ==> exists|res: Result<usize>| step == Exchange::Done(res) && scan_decoded(*r, old(entries)@, final(entries)@, res),
{
    match reply {
        None => Exchange::Send(RawMessage::empty(NetworkTag::WifiScanRequest.code())),
        Some(r) => Exchange::Done(network_wifi_scan_parse_reply(r, entries)),
    }
}

} // verus!

verus! {

/// What a reply that carries a link state in word 1 decodes to.
pub open spec fn link_result(r: RawMessage, tag: u32) -> Result<WifiLinkState> {
    match network_result(r, tag, 2, ()) {
        Err(e) => Err(e),
        Ok(_) => match wifi_link_state_of(r.words[1]) {
            Some(s) => Ok(s),
            None => Err(Error::InvalidArgument),
        },
    }
}

fn link_reply(r: &RawMessage, tag: u32) -> (res: Result<WifiLinkState>)
    ensures
        res == link_result(*r, tag),
{
    match network_check(r, tag, 2) {
        Ok(()) => {},
        Err(e) => return Err(e),
    }
    wifi_link_state_from_word(r.words[1])
}

/// The bytes of an optional key: none for an open network.
pub open spec fn psk_bytes(psk: Option<&str>) -> Seq<u8> {
    match psk {
        Some(p) => p.spec_bytes(),
        None => Seq::empty(),
    }
}

/// A join request is refused for an empty or over-long SSID, an over-long
/// key, or a key shorter than eight bytes.
pub open spec fn join_refused(ssid: Seq<u8>, psk: Seq<u8>) -> bool {
    ||| ssid.len() == 0
    ||| ssid.len() > NETWORK_WIFI_SSID_BYTES_MAX
    ||| psk.len() > NETWORK_WIFI_PSK_BYTES_MAX
    ||| (psk.len() > 0 && psk.len() < 8)
}

/// The words of a join request: both lengths, the SSID, then the key.
pub open spec fn join_words(ssid: Seq<u8>, psk: Seq<u8>) -> Seq<u64> {
    seq![ssid.len() as u64, psk.len() as u64] + packed_words(ssid) + packed_words(psk)
}

/// Builds the join request for `ssid`, with `psk` as the key (`None` for an
/// open network); `InvalidArgument` when the lengths are refused.
pub fn network_wifi_join_request(ssid: &str, psk: Option<&str>) -> (res: Result<RawMessage>)
    ensures
        join_refused(ssid.spec_bytes(), psk_bytes(psk)) ==> res == Err::<RawMessage, Error>(Error::InvalidArgument),
        !join_refused(ssid.spec_bytes(), psk_bytes(psk)) ==> (res matches Ok(m)
            && is_request(m, NetworkTag::WifiJoinRequest.spec_code(), join_words(ssid.spec_bytes(), psk_bytes(psk)))),
{
    let ssid_bytes = ssid.as_bytes();
    let none: [u8; 0] = [];
    let key = match psk {
        Some(p) => p.as_bytes(),
        None => none.as_slice(),
    };
    assert(key@ =~= psk_bytes(psk));
    if ssid_bytes.len() == 0 || ssid_bytes.len() > NETWORK_WIFI_SSID_BYTES_MAX
        || key.len() > NETWORK_WIFI_PSK_BYTES_MAX
        || (key.len() > 0 && key.len() < 8) {
        return Err(Error::InvalidArgument);
    }
    let head: [u64; 2] = [ssid_bytes.len() as u64, key.len() as u64];
    assert(head@ =~= seq![ssid_bytes@.len() as u64, key@.len() as u64]);
    Ok(request_with_two(NetworkTag::WifiJoinRequest.code(), head.as_slice(), ssid_bytes, key))
}

/// Decodes a join reply into the link state it reports.
pub fn network_wifi_join_parse_reply(response: &RawMessage) -> (res: Result<WifiLinkState>)
    ensures
        res == link_result(*response, NetworkTag::WifiJoinReply.spec_code()),
{
    link_reply(response, NetworkTag::WifiJoinReply.code())
}

/// Step of joining the wireless network `ssid`.
pub fn network_wifi_join(ssid: &str, psk: Option<&str>, reply: Option<&RawMessage>) -> (step: Exchange<WifiLinkState>)
    ensures
        reply is None && join_refused(ssid.spec_bytes(), psk_bytes(psk)) ==> step == Exchange::<WifiLinkState>::Done(Err(Error::InvalidArgument)),
        reply is None && !join_refused(ssid.spec_bytes(), psk_bytes(psk)) ==> sends(step, NetworkTag::WifiJoinRequest.spec_code(), join_words(ssid.spec_bytes(), psk_bytes(psk))),
        reply matches Some(r) ==> step == Exchange::Done(link_result(*r, NetworkTag::WifiJoinReply.spec_code())),
{
    match reply {
        None => match network_wifi_join_request(ssid, psk) {
            Ok(m) => Exchange::Send(m),
            Err(e) => Exchange::Done(Err(e)),
        },
        Some(r) => Exchange::Done(network_wifi_join_parse_reply(r)),
    }
}

/// Decodes a leave reply into the link state it reports.
pub fn network_wifi_leave_parse_reply(response: &RawMessage) -> (res: Result<WifiLinkState>)
    ensures
        res == link_result(*response, NetworkTag::WifiLeaveReply.spec_code()),
{
    link_reply(response, NetworkTag::WifiLeaveReply.code())
}

/// Step of dropping the current wireless link.
pub fn network_wifi_leave(reply: Option<&RawMessage>) -> (step: Exchange<WifiLinkState>)
    ensures
        reply is None ==> sends(step, NetworkTag::WifiLeaveRequest.spec_code(), Seq::empty()),
        reply matches Some(r) ==> step == Exchange::Done(link_result(*r, NetworkTag::WifiLeaveReply.spec_code())),
{
    match reply {
        None => Exchange::Send(RawMessage::empty(NetworkTag::WifiLeaveRequest.code())),
        Some(r) => Exchange::Done(network_wifi_leave_parse_reply(r)),
    }
}

/// Saved-network entry `i` decodes when its SSID length fits 32 bytes.
pub open spec fn saved_entry_ok(r: RawMessage, i: int) -> bool {
    (r.words[3 + 5 * i] >> 56) <= 32
}

/// Every saved-network entry up to and including `i` decodes.
pub open spec fn saved_ok_upto(r: RawMessage, i: int) -> bool {
    forall|j: int| 0 <= j <= i ==> #[trigger] saved_entry_ok(r, j)
}

/// `e` is the saved network carried in the five words at `b`: SSID length
/// and priority in the top bytes of the first, the SSID bytes from the first
/// word on.
pub open spec fn saved_entry_matches(e: NetworkWifiSavedNetwork, r: RawMessage, b: int) -> bool {
    let w0 = r.words[b];
    &&& e.ssid_len == (w0 >> 56) as usize
    &&& e.ssid@ == ssid_bytes(r, b, e.ssid_len as nat)
    &&& e.priority == ((w0 >> 48) & 0xff) as u8
}

/// `after` is `before` with the saved networks of reply `r` decoded into its
/// front and `res` the outcome: the total the service remembers. An entry
/// with an over-long SSID stops the decoding with `InvalidArgument`; the
/// entries before it stay decoded.
pub open spec fn saved_decoded(r: RawMessage, before: Seq<NetworkWifiSavedNetwork>, after: Seq<NetworkWifiSavedNetwork>, res: Result<usize>) -> bool {
    let table = carried_count(r, NetworkTag::WifiSavedListReply.spec_code(), 5, before.len());
    &&& after.len() == before.len()
    &&& table matches Err(e) ==> res == Err::<usize, Error>(e) && after == before
    &&& table matches Ok(c) ==> {
        &&& res == if saved_ok_upto(r, c - 1) { Ok::<usize, Error>(r.words[1] as usize) } else { Err(Error::InvalidArgument) }
        &&& forall|i: int| 0 <= i < c && saved_ok_upto(r, i) ==> saved_entry_matches(#[trigger] after[i], r, 3 + 5 * i)
        &&& forall|i: int| 0 <= i < before.len() && !(i < c && saved_ok_upto(r, i)) ==> after[i] == before[i]
    }
}

/// Decodes a saved-network reply into `saved`; the outcome is the number of
/// networks the service remembers.
pub fn network_wifi_saved_list_parse_reply(response: &RawMessage, saved: &mut [NetworkWifiSavedNetwork]) -> (res: Result<usize>)
    requires
        response.wf(),
    ensures
        saved_decoded(*response, old(saved)@, final(saved)@, res),
{
    let count = match carried_count_of(response, NetworkTag::WifiSavedListReply.code(), WIFI_SAVED_ENTRY_WORDS, saved.len()) {
        Ok(c) => c,
        Err(e) => return Err(e),
    };
    let ghost before = saved@;
    let mut i: usize = 0;
    while i < count
        invariant
            response.wf(),
            3 + count * 5 == response.word_count,
            count <= saved@.len(),
            before == old(saved)@,
            count_usize(carried_count(*response, NetworkTag::WifiSavedListReply.spec_code(), 5, before.len())) == Ok::<usize, Error>(count),
            saved@.len() == before.len(),
            i <= count,
            saved_ok_upto(*response, i - 1),
            forall|k: int| 0 <= k < i ==> saved_entry_matches(#[trigger] saved@[k], *response, 3 + 5 * k),
            forall|k: int| i <= k < saved@.len() ==> saved@[k] == before[k],
        decreases count - i,
    {
        let base = 3 + i * WIFI_SAVED_ENTRY_WORDS;
        let word0 = response.words[base];
        let len_word: u64 = word0 >> 56;
        assert(len_word <= 0xff) by (bit_vector)
            requires
                len_word == word0 >> 56,
        ;
        let ssid_len = len_word as usize;
        if ssid_len > NETWORK_WIFI_SSID_BYTES_MAX {
            proof {
                assert(!saved_entry_ok(*response, i as int));
                assert forall|k: int| 0 <= k < i implies saved_ok_upto(*response, k) by {
                    assert forall|j: int| 0 <= j <= k implies #[trigger] saved_entry_ok(*response, j) by {
                        assert(saved_ok_upto(*response, i - 1));
                    }
                }
                assert forall|k: int| i <= k < count implies !saved_ok_upto(*response, k) by {
                    assert(!saved_entry_ok(*response, i as int));
                }
            }
            return Err(Error::InvalidArgument);
        }
        saved[i] = NetworkWifiSavedNetwork {
            ssid_len,
            ssid: ssid_from(response, base, ssid_len),
            priority: ((word0 >> 48) & 0xff) as u8,
        };
        proof {
            assert(saved_entry_ok(*response, i as int));
        }
        i = i + 1;
    }
    Ok(response.words[1] as usize)
}

/// Step of listing the saved wireless networks into `saved`.
pub fn network_wifi_saved_list(saved: &mut [NetworkWifiSavedNetwork], reply: Option<&RawMessage>) -> (step: Exchange<usize>)
    requires
        reply_wf(reply),
    ensures
        reply is None ==> sends(step, NetworkTag::WifiSavedListRequest.spec_code(), Seq::empty()) && final(saved)@ == old(saved)@,
        reply matches Some(r) ==> exists|res: Result<usize>| step == Exchange::Done(res) && saved_decoded(*r, old(saved)@, final(saved)@, res),
{
    match reply {
        None => Exchange::Send(RawMessage::empty(NetworkTag::WifiSavedListRequest.code())),
        Some(r) => Exchange::Done(network_wifi_saved_list_parse_reply(r, saved)),
    }
}

/// A saved-network add is refused for an empty or over-long SSID or key (an
/// open network cannot be saved).
pub open spec fn saved_add_refused(ssid: Seq<u8>, psk: Seq<u8>) -> bool {
    ||| ssid.len() == 0
    ||| ssid.len() > NETWORK_WIFI_SSID_BYTES_MAX
    ||| psk.len() == 0
    ||| psk.len() > NETWORK_WIFI_PSK_BYTES_MAX
}

/// The words of a saved-network add: both lengths, the priority, the SSID,
/// then the key.
pub open spec fn saved_add_words(ssid: Seq<u8>, psk: Seq<u8>, priority: u8) -> Seq<u64> {
    seq![ssid.len() as u64, psk.len() as u64, priority as u64] + packed_words(ssid) + packed_words(psk)
}

/// Builds the request that saves `ssid` with key `psk` at `priority`;
/// `InvalidArgument` when the lengths are refused.
pub fn network_wifi_saved_add_request(ssid: &str, psk: &str, priority: u8) -> (res: Result<RawMessage>)
    ensures
        saved_add_refused(ssid.spec_bytes(), psk.spec_bytes()) ==> res == Err::<RawMessage, Error>(Error::InvalidArgument),
        !saved_add_refused(ssid.spec_bytes(), psk.spec_bytes()) ==> (res matches Ok(m)
            && is_request(m, NetworkTag::WifiSavedAddRequest.spec_code(), saved_add_words(ssid.spec_bytes(), psk.spec_bytes(), priority))),
{
    let ssid_bytes = ssid.as_bytes();
    let psk_bytes = psk.as_bytes();
    if ssid_bytes.len() == 0 || ssid_bytes.len() > NETWORK_WIFI_SSID_BYTES_MAX || psk_bytes.len() == 0
        || psk_bytes.len() > NETWORK_WIFI_PSK_BYTES_MAX {
        return Err(Error::InvalidArgument);
    }
    let head: [u64; 3] = [ssid_bytes.len() as u64, psk_bytes.len() as u64, priority as u64];
    assert(head@ =~= seq![ssid_bytes@.len() as u64, psk_bytes@.len() as u64, priority as u64]);
    Ok(request_with_two(NetworkTag::WifiSavedAddRequest.code(), head.as_slice(), ssid_bytes, psk_bytes))
}

/// Decodes a reply that carries nothing but a status.
fn network_wifi_status_reply(response: &RawMessage, tag: NetworkTag) -> (res: Result<()>)
    ensures
        res == network_result(*response, tag.spec_code(), 1, ()),
{
    network_check(response, tag.code(), 1)
}

/// Step of saving a wireless network.
pub fn network_wifi_saved_add(ssid: &str, psk: &str, priority: u8, reply: Option<&RawMessage>) -> (step: Exchange<()>)
    ensures
        reply is None && saved_add_refused(ssid.spec_bytes(), psk.spec_bytes()) ==> step == Exchange::<()>::Done(Err(Error::InvalidArgument)),
        reply is None && !saved_add_refused(ssid.spec_bytes(), psk.spec_bytes()) ==> sends(step, NetworkTag::WifiSavedAddRequest.spec_code(), saved_add_words(ssid.spec_bytes(), psk.spec_bytes(), priority)),
        reply matches Some(r) ==> step == Exchange::Done(network_result(*r, NetworkTag::WifiSavedAddReply.spec_code(), 1, ())),
{
    match reply {
        None => match network_wifi_saved_add_request(ssid, psk, priority) {
            Ok(m) => Exchange::Send(m),
            Err(e) => Exchange::Done(Err(e)),
        },
        Some(r) => Exchange::Done(network_wifi_status_reply(r, NetworkTag::WifiSavedAddReply)),
    }
}

/// A saved-network removal is refused for an empty or over-long SSID.
pub open spec fn ssid_refused(ssid: Seq<u8>) -> bool {
    ssid.len() == 0 || ssid.len() > NETWORK_WIFI_SSID_BYTES_MAX
}

/// Builds the request that forgets the saved network `ssid`;
/// `InvalidArgument` for an empty or over-long SSID.
pub fn network_wifi_saved_remove_request(ssid: &str) -> (res: Result<RawMessage>)
    ensures
        ssid_refused(ssid.spec_bytes()) ==> res == Err::<RawMessage, Error>(Error::InvalidArgument),
        !ssid_refused(ssid.spec_bytes()) ==> (res matches Ok(m)
            && is_request(m, NetworkTag::WifiSavedRemoveRequest.spec_code(), counted_bytes_words(ssid.spec_bytes()))),
{
    let bytes = ssid.as_bytes();
    if bytes.len() == 0 || bytes.len() > NETWORK_WIFI_SSID_BYTES_MAX {
        return Err(Error::InvalidArgument);
    }
    let head: [u64; 1] = [bytes.len() as u64];
    assert(head@ =~= seq![bytes@.len() as u64]);
    Ok(request_with_bytes(NetworkTag::WifiSavedRemoveRequest.code(), head.as_slice(), bytes))
}

/// Step of forgetting a saved wireless network.
pub fn network_wifi_saved_remove(ssid: &str, reply: Option<&RawMessage>) -> (step: Exchange<()>)
    ensures
        reply is None && ssid_refused(ssid.spec_bytes()) ==> step == Exchange::<()>::Done(Err(Error::InvalidArgument)),
        reply is None && !ssid_refused(ssid.spec_bytes()) ==> sends(step, NetworkTag::WifiSavedRemoveRequest.spec_code(), counted_bytes_words(ssid.spec_bytes())),
        reply matches Some(r) ==> step == Exchange::Done(network_result(*r, NetworkTag::WifiSavedRemoveReply.spec_code(), 1, ())),
{
    match reply {
        None => match network_wifi_saved_remove_request(ssid) {
            Ok(m) => Exchange::Send(m),
            Err(e) => Exchange::Done(Err(e)),
        },
        Some(r) => Exchange::Done(network_wifi_status_reply(r, NetworkTag::WifiSavedRemoveReply)),
    }
}

/// What a wireless status reply decodes to: `InvalidArgument` for an SSID
/// length over 32 bytes or a link-state word that names nothing.
pub open spec fn wifi_status_ok(r: RawMessage) -> bool {
    (r.words[3] as usize) <= NETWORK_WIFI_SSID_BYTES_MAX && wifi_link_state_of(r.words[1]) is Some
}

/// `s` is the wireless status a reply carries: link state, backend flag, SSID
/// length and the SSID bytes of words 4 to 7.
pub open spec fn wifi_status_matches(s: NetworkWifiStatus, r: RawMessage) -> bool {
    &&& wifi_link_state_of(r.words[1]) == Some(s.link_state)
    &&& s.backend_present == (r.words[2] & 1 != 0)
    &&& s.ssid_len == r.words[3] as usize
    &&& s.ssid@ == ssid_bytes(r, 4, s.ssid_len as nat)
}

/// Decodes a wireless status reply.
pub fn network_wifi_status_parse_reply(response: &RawMessage) -> (res: Result<NetworkWifiStatus>)
    ensures
        network_result(*response, NetworkTag::WifiStatusReply.spec_code(), 4, ()) matches Err(e) ==> res == Err::<NetworkWifiStatus, Error>(e),
        network_result(*response, NetworkTag::WifiStatusReply.spec_code(), 4, ()) is Ok ==> {
            &&& !wifi_status_ok(*response) ==> res == Err::<NetworkWifiStatus, Error>(Error::InvalidArgument)
            &&& wifi_status_ok(*response) ==> (res matches Ok(s) && wifi_status_matches(s, *response))
        },
{
    match network_check(response, NetworkTag::WifiStatusReply.code(), 4) {
        Ok(()) => {},
        Err(e) => return Err(e),
    }
    let ssid_len = response.words[3] as usize;
    if ssid_len > NETWORK_WIFI_SSID_BYTES_MAX {
        return Err(Error::InvalidArgument);
    }
    let ssid = ssid_from(response, 4, ssid_len);
    let link_state = match wifi_link_state_from_word(response.words[1]) {
        Ok(s) => s,
        Err(e) => return Err(e),
    };
    Ok(NetworkWifiStatus { link_state, backend_present: response.words[2] & 1 != 0, ssid_len, ssid })
}

/// Step of reading the wireless status.
pub fn network_wifi_status(reply: Option<&RawMessage>) -> (step: Exchange<NetworkWifiStatus>)
    ensures
        reply is None ==> sends(step, NetworkTag::WifiStatusRequest.spec_code(), Seq::empty()),
        reply matches Some(r) ==> step matches Exchange::Done(res) && {
            &&& network_result(*r, NetworkTag::WifiStatusReply.spec_code(), 4, ()) matches Err(e) ==> res == Err::<NetworkWifiStatus, Error>(e)
            &&& network_result(*r, NetworkTag::WifiStatusReply.spec_code(), 4, ()) is Ok ==> {
                &&& !wifi_status_ok(*r) ==> res == Err::<NetworkWifiStatus, Error>(Error::InvalidArgument)
                &&& wifi_status_ok(*r) ==> (res matches Ok(s) && wifi_status_matches(s, *r))
            }
        },
{
    match reply {
        None => Exchange::Send(RawMessage::empty(NetworkTag::WifiStatusRequest.code())),
        Some(r) => Exchange::Done(network_wifi_status_parse_reply(r)),
    }
}

} // verus!

verus! {

/// The firewall summary a rules reply carries in words 1 to 3; the rule
/// words that may follow are not read.
pub open spec fn firewall_summary_of(r: RawMessage) -> NetworkFirewallSummary {
    NetworkFirewallSummary {
        rule_count: r.words[1] as u32,
        default_inbound_allow: r.words[2] != 0,
        inbound_denied_total: (r.words[3] >> 32) as u32,
        outbound_denied_total: (r.words[3] & 0xffff_ffff) as u32,
    }
}

/// Decodes a firewall rules reply into its summary.
pub fn network_firewall_summary_parse_reply(response: &RawMessage) -> (res: Result<NetworkFirewallSummary>)
    ensures
        res == network_result(*response, NetworkTag::FirewallRulesReply.spec_code(), 4, firewall_summary_of(*response)),
{
    match network_check(response, NetworkTag::FirewallRulesReply.code(), 4) {
        Ok(()) => {},
        Err(e) => return Err(e),
    }
    Ok(NetworkFirewallSummary {
        rule_count: response.words[1] as u32,
        default_inbound_allow: response.words[2] != 0,
        inbound_denied_total: (response.words[3] >> 32) as u32,
        outbound_denied_total: (response.words[3] & 0xffff_ffff) as u32,
    })
}

/// Step of reading the firewall summary.
pub fn network_firewall_summary(reply: Option<&RawMessage>) -> (step: Exchange<NetworkFirewallSummary>)
    ensures
        reply is None ==> sends(step, NetworkTag::FirewallRulesGetRequest.spec_code(), Seq::empty()),
        reply matches Some(r) ==> step == Exchange::Done(network_result(*r, NetworkTag::FirewallRulesReply.spec_code(), 4, firewall_summary_of(*r))),
{
    match reply {
        None => Exchange::Send(RawMessage::empty(NetworkTag::FirewallRulesGetRequest.code())),
        Some(r) => Exchange::Done(network_firewall_summary_parse_reply(r)),
    }
}

/// Protocol a firewall rule matches.
#[derive(Clone, Copy, Debug, PartialEq, Eq, Structural)]
pub enum NetworkFirewallProto {
    Any,
    Tcp,
    Udp,
    Icmp,
}

impl NetworkFirewallProto {
    /// The number that carries this protocol in a rule word.
    pub open spec fn spec_code(self) -> u64 {
        match self {
            NetworkFirewallProto::Any => 0,
            NetworkFirewallProto::Tcp => 1,
            NetworkFirewallProto::Udp => 2,
            NetworkFirewallProto::Icmp => 3,
        }
    }

    /// The number that carries this protocol in a rule word.
    #[verifier::when_used_as_spec(spec_code)]
    pub fn code(self) -> (c: u64)
        ensures
            c == self.spec_code(),
    {
        match self {
            NetworkFirewallProto::Any => 0,
            NetworkFirewallProto::Tcp => 1,
            NetworkFirewallProto::Udp => 2,
            NetworkFirewallProto::Icmp => 3,
        }
    }
}

/// Direction of traffic a firewall rule matches.
#[derive(Clone, Copy, Debug, PartialEq, Eq, Structural)]
pub enum NetworkFirewallDirection {
    Inbound,
    Outbound,
}

impl NetworkFirewallDirection {
    /// The number that carries this direction in a rule word.
    pub open spec fn spec_code(self) -> u64 {
        match self {
            NetworkFirewallDirection::Inbound => 0,
            NetworkFirewallDirection::Outbound => 1,
        }
    }

    /// The number that carries this direction in a rule word.
    #[verifier::when_used_as_spec(spec_code)]
    pub fn code(self) -> (c: u64)
        ensures
            c == self.spec_code(),
    {
        match self {
            NetworkFirewallDirection::Inbound => 0,
            NetworkFirewallDirection::Outbound => 1,
        }
    }
}

/// One rule of the firewall table. `interface: None` matches every
/// interface; `Some(index)` pins the rule to the interface at that index.
/// A port of zero matches any port.
#[derive(Clone, Copy, Debug, PartialEq, Eq)]
pub struct NetworkFirewallRule {
    /// `false` allows, `true` denies.
    pub deny: bool,
    pub proto: NetworkFirewallProto,
    pub direction: NetworkFirewallDirection,
    pub port: u16,
    pub interface: Option<u16>,
    pub enabled: bool,
}

/// The interface qualifier of a rule: zero for any interface, else the
/// pinned index plus one.
pub open spec fn qualifier_of(rule: NetworkFirewallRule) -> nat {
    match rule.interface {
        None => 0,
        Some(index) => index as nat + 1,
    }
}

/// The rule word: deny flag in byte 0, protocol in byte 1, direction in
/// byte 2, enabled flag in byte 3, port in bits 32 to 47 and the low sixteen
/// bits of the interface qualifier in bits 48 to 63.
pub open spec fn rule_word(rule: NetworkFirewallRule) -> nat {
    ((if rule.deny { 1nat } else { 0nat })
        + rule.proto.spec_code() * 0x100
        + rule.direction.spec_code() * 0x1_0000
        + (if rule.enabled { 1nat } else { 0nat }) * 0x100_0000
        + rule.port as nat * 0x1_0000_0000
        + (qualifier_of(rule) % 0x1_0000) * 0x1_0000_0000_0000) as nat
}

/// Packs a rule into its rule word (see `rule_word`). Reading each field
/// back out of the word, as the service does, gives the rule's field.
pub fn pack_firewall_rule_word(rule: &NetworkFirewallRule) -> (w: u64)
    ensures
        w == rule_word(*rule),
        w & 0xff == (if rule.deny { 1u64 } else { 0u64 }),
        (w >> 8) & 0xff == rule.proto.spec_code(),
        (w >> 16) & 0xff == rule.direction.spec_code(),
        (w >> 24) & 0xff == (if rule.enabled { 1u64 } else { 0u64 }),
        (w >> 32) & 0xffff == rule.port as u64,
        w >> 48 == qualifier_of(*rule) % 0x1_0000,
{
    let deny: u64 = if rule.deny { 1 } else { 0 };
    let proto: u64 = rule.proto.code();
    let dir: u64 = rule.direction.code();
    let enabled: u64 = if rule.enabled { 1 } else { 0 };
    let port: u64 = rule.port as u64;
    let q: u64 = match rule.interface {
        None => 0,
        Some(index) => index as u64 + 1,
    };
    let w = deny | (proto << 8) | (dir << 16) | (enabled << 24) | (port << 32) | (q << 48);
    assert(w == deny + proto * 0x100 + dir * 0x1_0000 + enabled * 0x100_0000 + port * 0x1_0000_0000
        + (q % 0x1_0000) * 0x1_0000_0000_0000) by (bit_vector)
        requires
            w == deny | (proto << 8) | (dir << 16) | (enabled << 24) | (port << 32) | (q << 48),
            deny <= 1,
            proto <= 3,
            dir <= 1,
            enabled <= 1,
            port <= 0xffff,
            q <= 0x1_0000,
    ;
    assert(w & 0xff == deny && (w >> 8) & 0xff == proto && (w >> 16) & 0xff == dir && (w >> 24) & 0xff == enabled
        && (w >> 32) & 0xffff == port && w >> 48 == q % 0x1_0000) by (bit_vector)
        requires
            w == deny | (proto << 8) | (dir << 16) | (enabled << 24) | (port << 32) | (q << 48),
            deny <= 1,
            proto <= 3,
            dir <= 1,
            enabled <= 1,
            port <= 0xffff,
            q <= 0x1_0000,
    ;
    w
}

/// The words of a replace-all firewall request: operation zero, the rule
/// count, then for each rule its rule word and its enabled flag.
pub open spec fn firewall_words(rules: Seq<NetworkFirewallRule>) -> Seq<u64> {
    seq![0u64, rules.len() as u64] + Seq::new(2 * rules.len(), |k: int|
        if k % 2 == 0 { rule_word(rules[k / 2]) as u64 } else { if rules[k / 2].enabled { 1u64 } else { 0u64 } })
}

/// Builds the request that replaces the whole firewall table with `rules`;
/// `BufferTooSmall` when they do not fit one message (more than seven).
pub fn firewall_replace_request(rules: &[NetworkFirewallRule]) -> (res: Result<RawMessage>)
    ensures
        2 + 2 * rules@.len() > IPC_MAX_WORDS ==> res == Err::<RawMessage, Error>(Error::BufferTooSmall),
        2 + 2 * rules@.len() <= IPC_MAX_WORDS ==> (res matches Ok(m)
            && is_request(m, NetworkTag::FirewallRulesSetRequest.spec_code(), firewall_words(rules@))),
{
    if rules.len() > 7 {
        return Err(Error::BufferTooSmall);
    }
    let mut m = request2(NetworkTag::FirewallRulesSetRequest.code(), 0, rules.len() as u64);
    assert(m.words[0] == seq![0u64, rules@.len() as u64][0]);
    assert(m.words[1] == seq![0u64, rules@.len() as u64][1]);
    m.word_count = (2 + rules.len() * 2) as u32;
    let ghost ws = firewall_words(rules@);
    assert(ws[0] == 0u64 && ws[1] == rules@.len() as u64);
    let mut i: usize = 0;
    while i < rules.len()
        invariant
            rules@.len() <= 7,
            i <= rules@.len(),
            ws == firewall_words(rules@),
            m.tag == NetworkTag::FirewallRulesSetRequest.spec_code(),
            m.flags == 0,
            m.word_count == 2 + 2 * rules@.len(),
            m.handle_count == 0,
            forall|k: int| 0 <= k < 8 ==> m.handles[k] == 0 && m.handle_rights[k] == 0,
            forall|k: int| 0 <= k < 2 + 2 * i ==> m.words[k] == ws[k],
            forall|k: int| 2 + 2 * i <= k < 16 ==> m.words[k] == 0,
        decreases rules@.len() - i,
    {
        let base = 2 + i * 2;
        let w = pack_firewall_rule_word(&rules[i]);
        m.words[base] = w;
        m.words[base + 1] = if rules[i].enabled { 1 } else { 0 };
        proof {
            assert((2 * i) / 2 == i && (2 * i) % 2 == 0);
            assert((2 * i + 1) / 2 == i && (2 * i + 1) % 2 == 1);
        }
        i = i + 1;
    }
    Ok(m)
}

/// Step of replacing the whole firewall table; the outcome is the fresh
/// summary.
pub fn network_firewall_rules_replace(rules: &[NetworkFirewallRule], reply: Option<&RawMessage>) -> (step: Exchange<NetworkFirewallSummary>)
    ensures
        reply is None && 2 + 2 * rules@.len() > IPC_MAX_WORDS ==> step == Exchange::<NetworkFirewallSummary>::Done(Err(Error::BufferTooSmall)),
        reply is None && 2 + 2 * rules@.len() <= IPC_MAX_WORDS ==> sends(step, NetworkTag::FirewallRulesSetRequest.spec_code(), firewall_words(rules@)),
        reply matches Some(r) ==> step == Exchange::Done(network_result(*r, NetworkTag::FirewallRulesReply.spec_code(), 4, firewall_summary_of(*r))),
{
    match reply {
        None => match firewall_replace_request(rules) {
            Ok(m) => Exchange::Send(m),
            Err(e) => Exchange::Done(Err(e)),
        },
        Some(r) => Exchange::Done(network_firewall_summary_parse_reply(r)),
    }
}

} // verus!

verus! {

/// Longest name a resolve or ping request carries inline.
pub open spec fn inline_name_max() -> nat {
    ((IPC_MAX_WORDS - 1) * 8) as nat
}

/// The outcome of a resolve reply for a buffer of `cap` addresses:
/// `BufferTooSmall` when the count exceeds the buffer or the words present.
pub open spec fn resolve_result(r: RawMessage, cap: nat) -> Result<usize> {
    let count = (r.words[1] as usize) as nat;
    match network_result(r, NetworkTag::ResolveReply.spec_code(), 2, ()) {
        Err(e) => Err(e),
        Ok(_) => if count > cap || r.word_count < 2 + count {
            Err(Error::BufferTooSmall)
        } else {
            Ok(count as usize)
        },
    }
}

/// Step of resolving `name` into `addresses`; the outcome is the number of
/// addresses found, written to the front of the buffer.
pub fn network_resolve(name: &str, addresses: &mut [u32], reply: Option<&RawMessage>) -> (step: Exchange<usize>)
    requires
        reply_wf(reply),
    ensures
        final(addresses)@.len() == old(addresses)@.len(),
        reply is None ==> final(addresses)@ == old(addresses)@,
        reply is None && name.spec_bytes().len() > inline_name_max() ==> step == Exchange::<usize>::Done(Err(Error::BufferTooSmall)),
        reply is None && name.spec_bytes().len() <= inline_name_max() ==> sends(step, NetworkTag::ResolveRequest.spec_code(), counted_bytes_words(name.spec_bytes())),
        reply matches Some(r) ==> step == Exchange::Done(resolve_result(*r, old(addresses)@.len())),
        reply matches Some(r) ==> (step matches Exchange::Done(Ok(c)) ==> written(old(addresses)@, final(addresses)@, 0, c as int, |i: int| r.words[2 + i] as u32)),
        reply matches Some(r) ==> (step matches Exchange::Done(Err(_)) ==> final(addresses)@ == old(addresses)@),
{
    let r = match reply {
        None => {
            let bytes = name.as_bytes();
            if bytes.len() > (IPC_MAX_WORDS - 1) * 8 {
                return Exchange::Done(Err(Error::BufferTooSmall));
            }
            let head: [u64; 1] = [bytes.len() as u64];
            assert(head@ =~= seq![bytes@.len() as u64]);
            return Exchange::Send(request_with_bytes(NetworkTag::ResolveRequest.code(), head.as_slice(), bytes));
        },
        Some(r) => r,
    };
    match network_check(r, NetworkTag::ResolveReply.code(), 2) {
        Ok(()) => {},
        Err(e) => return Exchange::Done(Err(e)),
    }
    let count = r.words[1] as usize;
    if count > addresses.len() || count > 14 || (r.word_count as usize) < 2 + count {
        return Exchange::Done(Err(Error::BufferTooSmall));
    }
    let ghost before = addresses@;
    let mut i: usize = 0;
    while i < count
        invariant
            r.wf(),
            count <= 14,
            count <= addresses@.len(),
            addresses@.len() == before.len(),
            i <= count,
            forall|k: int| 0 <= k < i ==> addresses@[k] == r.words[2 + k] as u32,
            forall|k: int| i <= k < addresses@.len() ==> addresses@[k] == before[k],
        decreases count - i,
    {
        addresses[i] = r.words[2 + i] as u32;
        i = i + 1;
    }
    Exchange::Done(Ok(count))
}

/// Step of pinging `target`; the outcome is the address that answered and
/// the round trip in milliseconds.
pub fn network_ping(target: &str, reply: Option<&RawMessage>) -> (step: Exchange<(u32, u64)>)
    ensures
        reply is None && target.spec_bytes().len() > inline_name_max() ==> step == Exchange::<(u32, u64)>::Done(Err(Error::BufferTooSmall)),
        reply is None && target.spec_bytes().len() <= inline_name_max() ==> sends(step, NetworkTag::PingRequest.spec_code(), counted_bytes_words(target.spec_bytes())),
        reply matches Some(r) ==> step == Exchange::Done(network_result(*r, NetworkTag::PingReply.spec_code(), 3, (r.words[1] as u32, r.words[2]))),
{
    match reply {
        None => {
            let bytes = target.as_bytes();
            if bytes.len() > (IPC_MAX_WORDS - 1) * 8 {
                return Exchange::Done(Err(Error::BufferTooSmall));
            }
            let head: [u64; 1] = [bytes.len() as u64];
            assert(head@ =~= seq![bytes@.len() as u64]);
            Exchange::Send(request_with_bytes(NetworkTag::PingRequest.code(), head.as_slice(), bytes))
        },
        Some(r) => Exchange::Done(
            match network_check(r, NetworkTag::PingReply.code(), 3) {
                Ok(()) => Ok((r.words[1] as u32, r.words[2])),
                Err(e) => Err(e),
            },
        ),
    }
}

/// The words of a socket-open request: the kind, the target's length above
/// the port, then the target's bytes.
pub open spec fn socket_open_words(kind: crate::abi::NetworkSocketKind, target: Seq<u8>, port: u16) -> Seq<u64> {
    seq![kind.spec_code() as u64, (target.len() * 0x1_0000 + port) as u64] + packed_words(target)
}

/// What a socket-open reply decodes to: the socket's handle, the first one
/// the reply transfers.
pub open spec fn socket_open_result(r: RawMessage) -> Result<Handle> {
    match network_result(r, NetworkTag::SocketOpenReply.spec_code(), 1, ()) {
        Err(e) => Err(e),
        Ok(_) => if r.handle_count < 1 { Err(Error::InvalidArgument) } else { Ok(r.handles[0]) },
    }
}

/// Step of opening a socket of `kind` to `target` on `port`.
pub fn network_socket_open(kind: crate::abi::NetworkSocketKind, target: &str, port: u16, reply: Option<&RawMessage>) -> (step: Exchange<Handle>)
    ensures
        reply is None && target.spec_bytes().len() > (IPC_MAX_WORDS - 2) * 8 ==> step == Exchange::<Handle>::Done(Err(Error::BufferTooSmall)),
        reply is None && target.spec_bytes().len() <= (IPC_MAX_WORDS - 2) * 8 ==> sends(step, NetworkTag::SocketOpenRequest.spec_code(), socket_open_words(kind, target.spec_bytes(), port)),
        reply matches Some(r) ==> step == Exchange::Done(socket_open_result(*r)),
{
    match reply {
        None => {
            let bytes = target.as_bytes();
            if bytes.len() > (IPC_MAX_WORDS - 2) * 8 {
                return Exchange::Done(Err(Error::BufferTooSmall));
            }
            let head: [u64; 2] = [kind.code() as u64, (bytes.len() as u64) * 0x1_0000 + port as u64];
            assert(head@ =~= seq![kind.spec_code() as u64, (bytes@.len() * 0x1_0000 + port) as u64]);
            Exchange::Send(request_with_bytes(NetworkTag::SocketOpenRequest.code(), head.as_slice(), bytes))
        },
        Some(r) => {
            match network_check(r, NetworkTag::SocketOpenReply.code(), 1) {
                Ok(()) => {},
                Err(e) => return Exchange::Done(Err(e)),
            }
            if r.handle_count < 1 {
                return Exchange::Done(Err(Error::InvalidArgument));
            }
            Exchange::Done(Ok(r.handles[0]))
        },
    }
}

/// The socket record carried in the seven words at `b`; the last word holds
/// the received byte count above the sent one.
pub open spec fn socket_info_at(r: RawMessage, b: int) -> NetworkSocketInfo {
    NetworkSocketInfo {
        slot: r.words[b] as u32,
        kind: network_socket_kind_from_word(r.words[b + 1]),
        state: network_socket_state_from_word(r.words[b + 2]),
        remote_address: r.words[b + 3] as u32,
        remote_port: r.words[b + 4] as u16,
        local_port: r.words[b + 5] as u16,
        rx_bytes: r.words[b + 6] >> 32,
        tx_bytes: r.words[b + 6] & 0xffff_ffff,
    }
}

fn socket_info_from(r: &RawMessage, b: usize) -> (info: NetworkSocketInfo)
    requires
        b + 7 <= 16,
    ensures
        info == socket_info_at(*r, b as int),
{
    NetworkSocketInfo {
        slot: r.words[b] as u32,
        kind: network_socket_kind_from_word(r.words[b + 1]),
        state: network_socket_state_from_word(r.words[b + 2]),
        remote_address: r.words[b + 3] as u32,
        remote_port: r.words[b + 4] as u16,
        local_port: r.words[b + 5] as u16,
        rx_bytes: r.words[b + 6] >> 32,
        tx_bytes: r.words[b + 6] & 0xffff_ffff,
    }
}

/// Step of listing the open sockets into `sockets`.
pub fn network_socket_list(sockets: &mut [NetworkSocketInfo], reply: Option<&RawMessage>) -> (step: Exchange<usize>)
    requires
        reply_wf(reply),
    ensures
        final(sockets)@.len() == old(sockets)@.len(),
        reply is None ==> sends(step, NetworkTag::SocketListRequest.spec_code(), Seq::empty()) && final(sockets)@ == old(sockets)@,
        reply matches Some(r) ==> step == Exchange::Done(count_usize(network_table(*r, NetworkTag::SocketListReply.spec_code(), 2, 7, old(sockets)@.len()))),
        reply matches Some(r) ==> (step matches Exchange::Done(Ok(c)) ==> written(old(sockets)@, final(sockets)@, 0, c as int, |i: int| socket_info_at(*r, 2 + 7 * i))),
        reply matches Some(r) ==> (step matches Exchange::Done(Err(_)) ==> final(sockets)@ == old(sockets)@),
{
    let r = match reply {
        None => return Exchange::Send(RawMessage::empty(NetworkTag::SocketListRequest.code())),
        Some(r) => r,
    };
    let count = match network_table_of(r, NetworkTag::SocketListReply.code(), 2, 7, sockets.len()) {
        Ok(c) => c,
        Err(e) => return Exchange::Done(Err(e)),
    };
    let ghost before = sockets@;
    let mut i: usize = 0;
    while i < count
        invariant
            r.wf(),
            2 + count * 7 == r.word_count,
            count <= sockets@.len(),
            sockets@.len() == before.len(),
            i <= count,
            forall|k: int| 0 <= k < i ==> sockets@[k] == socket_info_at(*r, 2 + 7 * k),
            forall|k: int| i <= k < sockets@.len() ==> sockets@[k] == before[k],
        decreases count - i,
    {
        sockets[i] = socket_info_from(r, 2 + i * 7);
        i = i + 1;
    }
    Exchange::Done(Ok(count))
}

/// Step of reading the status of the socket the exchange is addressed to.
pub fn network_socket_status(reply: Option<&RawMessage>) -> (step: Exchange<NetworkSocketInfo>)
    ensures
        reply is None ==> sends(step, NetworkSocketTag::StatusRequest.spec_code(), Seq::empty()),
        reply matches Some(r) ==> step == Exchange::Done(network_result(*r, NetworkSocketTag::StatusReply.spec_code(), 8, socket_info_at(*r, 1))),
{
    match reply {
        None => Exchange::Send(RawMessage::empty(NetworkSocketTag::StatusRequest.code())),
        Some(r) => Exchange::Done(
            match network_check(r, NetworkSocketTag::StatusReply.code(), 8) {
                Ok(()) => Ok(socket_info_from(r, 1)),
                Err(e) => Err(e),
            },
        ),
    }
}

/// Step of sending `payload` on the socket; the outcome is the number of
/// bytes the service accepted.
pub fn network_socket_send(payload: &[u8], reply: Option<&RawMessage>) -> (step: Exchange<usize>)
    ensures
        reply is None && payload@.len() > inline_name_max() ==> step == Exchange::<usize>::Done(Err(Error::BufferTooSmall)),
        reply is None && payload@.len() <= inline_name_max() ==> sends(step, NetworkSocketTag::SendRequest.spec_code(), counted_bytes_words(payload@)),
        reply matches Some(r) ==> step == Exchange::Done(network_result(*r, NetworkSocketTag::SendReply.spec_code(), 2, r.words[1] as usize)),
{
    match reply {
        None => {
            if payload.len() > (IPC_MAX_WORDS - 1) * 8 {
                return Exchange::Done(Err(Error::BufferTooSmall));
            }
            let head: [u64; 1] = [payload.len() as u64];
            assert(head@ =~= seq![payload@.len() as u64]);
            Exchange::Send(request_with_bytes(NetworkSocketTag::SendRequest.code(), head.as_slice(), payload))
        },
        Some(r) => Exchange::Done(
            match network_check(r, NetworkSocketTag::SendReply.code(), 2) {
                Ok(()) => Ok(r.words[1] as usize),
                Err(e) => Err(e),
            },
        ),
    }
}

/// What a receive reply decodes to for a buffer of `cap` bytes.
pub open spec fn receive_result(r: RawMessage, cap: nat) -> Result<usize> {
    match network_result(r, NetworkSocketTag::ReceiveReply.spec_code(), 2, ()) {
        Err(e) => Err(e),
        Ok(_) => match unpack_outcome(r, 2, (r.words[1] as usize) as nat, cap) {
            Err(e) => Err(e),
            Ok(_) => Ok(r.words[1] as usize),
        },
    }
}

/// Step of receiving from the socket into `buffer`; the request asks for at
/// most as many bytes as one reply carries, and the outcome is the number of
/// bytes received.
pub fn network_socket_receive(buffer: &mut [u8], reply: Option<&RawMessage>) -> (step: Exchange<usize>)
    requires
        reply_wf(reply),
    ensures
        final(buffer)@.len() == old(buffer)@.len(),
        reply is None ==> final(buffer)@ == old(buffer)@
            && sends(step, NetworkSocketTag::ReceiveRequest.spec_code(), seq![vstd::math::min(old(buffer)@.len() as int, 112) as u64]),
        reply matches Some(r) ==> step == Exchange::Done(receive_result(*r, old(buffer)@.len())),
        reply matches Some(r) ==> (step matches Exchange::Done(Ok(n)) ==> final(buffer)@.subrange(0, n as int) == message_bytes(*r, 2, n as nat)
            && final(buffer)@.subrange(n as int, old(buffer)@.len() as int) == old(buffer)@.subrange(n as int, old(buffer)@.len() as int)),
        reply matches Some(r) ==> (step matches Exchange::Done(Err(_)) ==> final(buffer)@ == old(buffer)@),
{
    match reply {
        None => {
            let requested: usize = if buffer.len() < 112 { buffer.len() } else { 112 };
            Exchange::Send(request1(NetworkSocketTag::ReceiveRequest.code(), requested as u64))
        },
        Some(r) => {
            match network_check(r, NetworkSocketTag::ReceiveReply.code(), 2) {
                Ok(()) => {},
                Err(e) => return Exchange::Done(Err(e)),
            }
            let count = r.words[1] as usize;
            match unpack_from(r, 2, count, buffer) {
                Ok(()) => Exchange::Done(Ok(count)),
                Err(e) => Exchange::Done(Err(e)),
            }
        },
    }
}

/// What a socket-close reply decodes to: a socket the service already
/// closed counts as closed.
pub open spec fn close_result(r: RawMessage) -> Result<()> {
    let status = network_status_from_word(r.words[0]);
    if !reply_shape(r, NetworkSocketTag::CloseReply.spec_code(), 1) {
        Err(Error::InvalidArgument)
    } else if status == NetworkStatus::Success || status == NetworkStatus::Closed {
        Ok(())
    } else {
        Err(network_status_error(status))
    }
}

/// Step of closing the socket.
pub fn network_socket_close(reply: Option<&RawMessage>) -> (step: Exchange<()>)
    ensures
        reply is None ==> sends(step, NetworkSocketTag::CloseRequest.spec_code(), Seq::empty()),
        reply matches Some(r) ==> step == Exchange::Done(close_result(*r)),
{
    match reply {
        None => Exchange::Send(RawMessage::empty(NetworkSocketTag::CloseRequest.code())),
        Some(r) => {
            if !has_shape(r, NetworkSocketTag::CloseReply.code(), 1) {
                return Exchange::Done(Err(Error::InvalidArgument));
            }
            let status = network_status_from_word(r.words[0]);
            if status != NetworkStatus::Success && status != NetworkStatus::Closed {
                return Exchange::Done(Err(network_status_error(status)));
            }
            Exchange::Done(Ok(()))
        },
    }
}

} // verus!
