//! Logic of the settings app's network pages: the text it shows for
//! addresses and loss, the ping target it picks, and the priority it reads
//! from the wireless prompt.
use vstd::prelude::*;

use crate::abi::{NetworkListenPortKind, PacketInterfaceLinkState};
use crate::types::NetworkInterfaceStatusInfo;

verus! {

/// The decimal digits of `n`, most significant first, in ASCII.
pub open spec fn decimal(n: nat) -> Seq<u8>
    decreases n,
{
    if n < 10 {
        seq![(48 + n) as u8]
    } else {
        decimal(n / 10).push((48 + n % 10) as u8)
    }
}

/// Appends the decimal digits of `n` to `out`.
pub fn push_decimal(out: &mut Vec<u8>, n: u64)
    ensures
        final(out)@ == old(out)@ + decimal(n as nat),
    decreases n,
{
    if n >= 10 {
        push_decimal(out, n / 10);
    }
    out.push(48 + (n % 10) as u8);
    proof {
        if n >= 10 {
            assert(decimal(n as nat) == decimal((n / 10) as nat).push((48 + n % 10) as u8));
        } else {
            assert(decimal(n as nat) == seq![(48 + n) as u8]);
        }
    }
}

/// Octet `k` of an IPv4 address (octet 0 is the most significant).
pub open spec fn octet(address: u32, k: int) -> nat {
    ((address >> ((24 - 8 * k) as u32)) & 0xff) as nat
}

/// The dotted-quad text of an IPv4 address.
pub open spec fn ipv4_text(address: u32) -> Seq<u8> {
    decimal(octet(address, 0)) + seq![46u8] + decimal(octet(address, 1)) + seq![46u8]
        + decimal(octet(address, 2)) + seq![46u8] + decimal(octet(address, 3))
}

/// The dotted-quad text of an IPv4 address, most significant octet first.
pub fn format_ipv4(address: u32) -> (t: Vec<u8>)
    ensures
        t@ == ipv4_text(address),
{
    let mut t: Vec<u8> = Vec::new();
    push_decimal(&mut t, ((address >> 24) & 0xff) as u64);
    t.push(46);
    push_decimal(&mut t, ((address >> 16) & 0xff) as u64);
    t.push(46);
    push_decimal(&mut t, ((address >> 8) & 0xff) as u64);
    t.push(46);
    push_decimal(&mut t, (address & 0xff) as u64);
    proof {
        assert(octet(address, 3) == (address & 0xff) as nat) by {
            assert(address >> 0u32 == address) by (bit_vector);
        }
    }
    t
}

/// The lowercase hexadecimal digit of `d` (below sixteen).
pub open spec fn hex_digit(d: nat) -> u8 {
    if d < 10 { (48 + d) as u8 } else { (87 + d) as u8 }
}

/// The two lowercase hexadecimal digits of a byte.
pub open spec fn hex_pair(b: u8) -> Seq<u8> {
    seq![hex_digit((b / 16) as nat), hex_digit((b % 16) as nat)]
}

/// The colon-separated text of a hardware address.
pub open spec fn mac_text(mac: Seq<u8>) -> Seq<u8> {
    hex_pair(mac[0]) + seq![58u8] + hex_pair(mac[1]) + seq![58u8] + hex_pair(mac[2]) + seq![58u8]
        + hex_pair(mac[3]) + seq![58u8] + hex_pair(mac[4]) + seq![58u8] + hex_pair(mac[5])
}

fn push_hex_pair(out: &mut Vec<u8>, b: u8)
    ensures
        final(out)@ == old(out)@ + hex_pair(b),
{
    let hi = b / 16;
    let lo = b % 16;
    out.push(if hi < 10 { 48 + hi } else { 87 + hi });
    out.push(if lo < 10 { 48 + lo } else { 87 + lo });
    assert(final(out)@ =~= old(out)@ + hex_pair(b));
}

/// The colon-separated lowercase hexadecimal text of a hardware address.
pub fn format_mac(mac: [u8; 6]) -> (t: Vec<u8>)
    ensures
        t@ == mac_text(mac@),
{
    let mut t: Vec<u8> = Vec::new();
    push_hex_pair(&mut t, mac[0]);
    t.push(58);
    push_hex_pair(&mut t, mac[1]);
    t.push(58);
    push_hex_pair(&mut t, mac[2]);
    t.push(58);
    push_hex_pair(&mut t, mac[3]);
    t.push(58);
    push_hex_pair(&mut t, mac[4]);
    t.push(58);
    push_hex_pair(&mut t, mac[5]);
    t
}

/// The percentage text of a loss given in tenths of a percent.
pub open spec fn loss_text(loss_permil: u64) -> Seq<u8> {
    decimal((loss_permil / 10) as nat) + seq![46u8] + decimal((loss_permil % 10) as nat) + seq![37u8]
}

/// A loss in tenths of a percent as a percentage with one decimal.
pub fn format_loss(loss_permil: u64) -> (t: Vec<u8>)
    ensures
        t@ == loss_text(loss_permil),
{
    let mut t: Vec<u8> = Vec::new();
    push_decimal(&mut t, loss_permil / 10);
    t.push(46);
    push_decimal(&mut t, loss_permil % 10);
    t.push(37);
    t
}

/// The literal target of a diagnostics ping: the interface's gateway, else
/// its DNS server; none without an interface or when neither is set.
pub fn ping_target_address(interface: Option<NetworkInterfaceStatusInfo>) -> (t: Option<u32>)
    ensures
        t == (match interface {
            None => None,
            Some(i) => if i.gateway != 0 { Some(i.gateway) } else if i.dns_server != 0 { Some(i.dns_server) } else { None },
        }),
{
    let interface = match interface {
        Some(i) => i,
        None => return None,
    };
    if interface.gateway != 0 {
        return Some(interface.gateway);
    }
    if interface.dns_server != 0 {
        return Some(interface.dns_server);
    }
    None
}

/// An ASCII decimal digit.
pub open spec fn is_digit(b: u8) -> bool {
    48 <= b <= 57
}

/// The value of a string of decimal digits.
pub open spec fn digits_value(s: Seq<u8>) -> nat
    decreases s.len(),
{
    if s.len() == 0 {
        0
    } else {
        digits_value(s.drop_last()) * 10 + (s.last() - 48) as nat
    }
}

/// A string of digits is worth at least any of its prefixes.
pub proof fn lemma_digits_value_grows(s: Seq<u8>, k: int)
    requires
        0 <= k <= s.len(),
        forall|i: int| 0 <= i < s.len() ==> is_digit(#[trigger] s[i]),
    ensures
        digits_value(s.subrange(0, k)) <= digits_value(s),
    decreases s.len() - k,
{
    if k < s.len() {
        lemma_digits_value_grows(s, k + 1);
        let p = s.subrange(0, k + 1);
        assert(p.drop_last() =~= s.subrange(0, k));
    } else {
        assert(s.subrange(0, k) =~= s);
    }
}

/// The priority typed in the wireless prompt: zero when nothing was typed;
/// otherwise the digits' value when every byte is a digit and the value
/// fits a byte; none else.
pub fn parse_priority(edit: &[u8]) -> (p: Option<u8>)
    ensures
        edit@.len() == 0 ==> p == Some(0u8),
        edit@.len() > 0 && (forall|i: int| 0 <= i < edit@.len() ==> is_digit(#[trigger] edit@[i])) && digits_value(edit@) <= 255
            ==> p == Some(digits_value(edit@) as u8),
        edit@.len() > 0 && !((forall|i: int| 0 <= i < edit@.len() ==> is_digit(#[trigger] edit@[i])) && digits_value(edit@) <= 255)
            ==> p is None,
{
    if edit.len() == 0 {
        return Some(0);
    }
    let mut value: usize = 0;
    let mut i: usize = 0;
    while i < edit.len()
        invariant
            i <= edit@.len(),
            value == digits_value(edit@.subrange(0, i as int)),
            value <= 255,
            forall|j: int| 0 <= j < i ==> is_digit(#[trigger] edit@[j]),
        decreases edit@.len() - i,
    {
        let b = edit[i];
        if !(48 <= b && b <= 57) {
            return None;
        }
        proof {
            assert(edit@.subrange(0, i + 1).drop_last() =~= edit@.subrange(0, i as int));
        }
        value = value * 10 + (b - 48) as usize;
        if value > 255 {
            proof {
                if forall|j: int| 0 <= j < edit@.len() ==> is_digit(#[trigger] edit@[j]) {
                    lemma_digits_value_grows(edit@, i + 1);
                }
            }
            return None;
        }
        i = i + 1;
    }
    proof {
        assert(edit@.subrange(0, edit@.len() as int) =~= edit@);
    }
    Some(value as u8)
}

/// Decimal text is made of digits, and a value below a thousand has at
/// most three of them.
pub proof fn lemma_decimal_digits(n: nat)
    ensures
        forall|i: int| 0 <= i < decimal(n).len() ==> is_digit(#[trigger] decimal(n)[i]),
        decimal(n).len() >= 1,
        n < 10 ==> decimal(n).len() == 1,
        n < 100 ==> decimal(n).len() <= 2,
        n < 1000 ==> decimal(n).len() <= 3,
    decreases n,
{
    if n >= 10 {
        lemma_decimal_digits(n / 10);
        assert forall|i: int| 0 <= i < decimal(n).len() implies is_digit(#[trigger] decimal(n)[i]) by {
            if i < decimal(n / 10).len() {
                assert(decimal(n)[i] == decimal(n / 10)[i]);
            }
        }
    }
}

pub open spec fn link_state_text(state: PacketInterfaceLinkState) -> &'static str {
    match state {
        PacketInterfaceLinkState::Up => "UP",
        PacketInterfaceLinkState::Down => "DOWN",
    }
}

/// The name the network page shows for an interface's link state.
pub fn link_state_name(state: PacketInterfaceLinkState) -> (t: &'static str)
    ensures
        t == link_state_text(state),
{
    match state {
        PacketInterfaceLinkState::Up => "UP",
        PacketInterfaceLinkState::Down => "DOWN",
    }
}

pub open spec fn listen_port_kind_text(kind: NetworkListenPortKind) -> &'static str {
    match kind {
        NetworkListenPortKind::TcpListener => "TCP",
        NetworkListenPortKind::UdpClient => "UDP",
        NetworkListenPortKind::UdpInternal => "UDP-I",
        NetworkListenPortKind::Unknown => "?",
    }
}

/// The name the network page shows for a bound port's kind.
pub fn listen_port_kind_name(kind: NetworkListenPortKind) -> (t: &'static str)
    ensures
        t == listen_port_kind_text(kind),
{
    match kind {
        NetworkListenPortKind::TcpListener => "TCP",
        NetworkListenPortKind::UdpClient => "UDP",
        NetworkListenPortKind::UdpInternal => "UDP-I",
        NetworkListenPortKind::Unknown => "?",
    }
}

} // verus!
