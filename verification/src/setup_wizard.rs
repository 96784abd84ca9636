//! First-boot setup wizard: step sequencing of the serial onboarding
//! conversation (hostname, timezone, admin account name and secret,
//! confirmation) and the hostname packing used for the config value.
//!
//! Empty input applies a documented default so headless boots complete
//! deterministically; invalid input retries the current step.
//!
//! A hostname persists as a config value: a label of at most 8 ASCII bytes
//! packed big-endian into a `u64`.
use vstd::prelude::*;
use vstd::string::StringSliceAdditionalSpecFns;
use vstd::utf8::{encode_utf8, valid_utf8};

use crate::message::byte_of;
use crate::text::{bytes_eq, str_from_utf8, str_trim};

verus! {

pub const MARKER_PATH: &'static str = "state/setup-wizard/firstboot.done";
pub const TIMEZONE_PATH: &'static str = "state/setup-wizard/timezone.txt";
pub const WIZARD_DIR: &'static str = "state/setup-wizard/";

pub const DEFAULT_HOSTNAME: &'static str = "svc-os";
pub const DEFAULT_TIMEZONE: &'static str = "UTC";
pub const DEFAULT_ADMIN_NAME: &'static str = "admin";
pub const DEFAULT_ADMIN_SECRET: &'static str = "serviceos";

pub const HOSTNAME_MAX: usize = 8;
pub const TIMEZONE_MAX: usize = 24;
pub const ADMIN_NAME_MAX: usize = 32;
pub const ADMIN_SECRET_MAX: usize = 64;

pub const HOSTNAME_HINT: &'static str = "hostname must be 1-8 letters/digits/hyphen";
pub const TIMEZONE_HINT: &'static str = "timezone must be 1-24 printable characters";
pub const ADMIN_NAME_HINT: &'static str = "account name must be 1-32 letters/digits/-/_";
pub const ADMIN_SECRET_HINT: &'static str = "secret must be 1-64 non-control characters";
pub const CONFIRM_HINT: &'static str = "answer y or n";

pub const HOSTNAME_PROMPT: &'static str = "setup: hostname label (1-8 chars, Enter = svc-os): ";
pub const TIMEZONE_PROMPT: &'static str = "setup: timezone label (Enter = UTC): ";
pub const ADMIN_NAME_PROMPT: &'static str = "setup: admin account name (Enter = admin): ";
pub const ADMIN_SECRET_PROMPT: &'static str = "setup: admin account secret (Enter = serviceos): ";
pub const CONFIRM_PROMPT: &'static str = "setup: apply these values? type y to apply, n to restart: ";
pub const DONE_PROMPT: &'static str = "";

/// ASCII letter or digit.
pub open spec fn is_alnum(b: u8) -> bool {
    (48 <= b && b <= 57) || (65 <= b && b <= 90) || (97 <= b && b <= 122)
}

fn alnum(b: u8) -> (r: bool)
    ensures
        r == is_alnum(b),
{
    (48 <= b && b <= 57) || (65 <= b && b <= 90) || (97 <= b && b <= 122)
}

/// A hostname label: 1 to 8 ASCII letters, digits or hyphens, starting with
/// a letter or digit.
pub open spec fn hostname_label(bs: Seq<u8>) -> bool {
    &&& 1 <= bs.len() <= 8
    &&& is_alnum(bs[0])
    &&& forall|i: int| 0 <= i < bs.len() ==> is_alnum(#[trigger] bs[i]) || bs[i] == 45
}

/// Free text: 1 to `max` printable non-space ASCII characters.
pub open spec fn free_text(bs: Seq<u8>, max: nat) -> bool {
    &&& 1 <= bs.len() <= max
    &&& forall|i: int| 0 <= i < bs.len() ==> 33 <= #[trigger] bs[i] && bs[i] <= 126
}

/// An account name: 1 to 32 letters, digits, hyphens or underscores.
pub open spec fn account_name(bs: Seq<u8>) -> bool {
    &&& 1 <= bs.len() <= 32
    &&& forall|i: int| 0 <= i < bs.len() ==> is_alnum(#[trigger] bs[i]) || bs[i] == 45 || bs[i] == 95
}

/// An admin secret: 1 to 64 printable ASCII characters (space included).
pub open spec fn admin_secret(bs: Seq<u8>) -> bool {
    &&& 1 <= bs.len() <= 64
    &&& forall|i: int| 0 <= i < bs.len() ==> 32 <= #[trigger] bs[i] && bs[i] < 127
}

/// Whether a string is a hostname label.
pub fn is_hostname_label(value: &str) -> (r: bool)
    ensures
        r == hostname_label(value.spec_bytes()),
{
    label_bytes(value.as_bytes())
}

fn label_bytes(bytes: &[u8]) -> (r: bool)
    ensures
        r == hostname_label(bytes@),
{
    if bytes.len() == 0 || bytes.len() > HOSTNAME_MAX || !alnum(bytes[0]) {
        return false;
    }
    let mut i: usize = 0;
    while i < bytes.len()
        invariant
            i <= bytes@.len(),
            forall|k: int| 0 <= k < i ==> is_alnum(#[trigger] bytes@[k]) || bytes@[k] == 45,
        decreases bytes@.len() - i,
    {
        if !(alnum(bytes[i]) || bytes[i] == 45) {
            return false;
        }
        i = i + 1;
    }
    true
}

fn is_free_text(value: &str, max: usize) -> (r: bool)
    ensures
        r == free_text(value.spec_bytes(), max as nat),
{
    let bytes = value.as_bytes();
    if bytes.len() == 0 || bytes.len() > max {
        return false;
    }
    let mut i: usize = 0;
    while i < bytes.len()
        invariant
            bytes@ == value.spec_bytes(),
            i <= bytes@.len(),
            forall|k: int| 0 <= k < i ==> 33 <= #[trigger] bytes@[k] && bytes@[k] <= 126,
        decreases bytes@.len() - i,
    {
        if bytes[i] < 33 || bytes[i] > 126 {
            assert(!(33 <= bytes@[i as int] && bytes@[i as int] <= 126));
            return false;
        }
        i = i + 1;
    }
    true
}

fn is_account_name(value: &str) -> (r: bool)
    ensures
        r == account_name(value.spec_bytes()),
{
    let bytes = value.as_bytes();
    if bytes.len() == 0 || bytes.len() > ADMIN_NAME_MAX {
        return false;
    }
    let mut i: usize = 0;
    while i < bytes.len()
        invariant
            bytes@ == value.spec_bytes(),
            i <= bytes@.len(),
            forall|k: int|
                0 <= k < i ==> is_alnum(#[trigger] bytes@[k]) || bytes@[k] == 45 || bytes@[k] == 95,
        decreases bytes@.len() - i,
    {
        if !(alnum(bytes[i]) || bytes[i] == 45 || bytes[i] == 95) {
            assert(!(is_alnum(bytes@[i as int]) || bytes@[i as int] == 45 || bytes@[i as int] == 95));
            return false;
        }
        i = i + 1;
    }
    true
}

fn is_admin_secret(value: &str) -> (r: bool)
    ensures
        r == admin_secret(value.spec_bytes()),
{
    let bytes = value.as_bytes();
    if bytes.len() == 0 || bytes.len() > ADMIN_SECRET_MAX {
        return false;
    }
    let mut i: usize = 0;
    while i < bytes.len()
        invariant
            bytes@ == value.spec_bytes(),
            i <= bytes@.len(),
            forall|k: int| 0 <= k < i ==> 32 <= #[trigger] bytes@[k] && bytes@[k] < 127,
        decreases bytes@.len() - i,
    {
        if bytes[i] < 32 || bytes[i] >= 127 {
            assert(!(32 <= bytes@[i as int] && bytes@[i as int] < 127));
            return false;
        }
        i = i + 1;
    }
    true
}

/// A validated short string kept inline.
#[derive(Clone, Copy)]
pub struct FieldText<const N: usize> {
    bytes: [u8; N],
    len: usize,
}

impl<const N: usize> View for FieldText<N> {
    type V = Seq<u8>;

    /// The text held, as bytes.
    closed spec fn view(&self) -> Seq<u8> {
        self.bytes@.subrange(0, self.len as int)
    }
}

impl<const N: usize> FieldText<N> {
    /// The field's invariant: it holds at most `N` bytes of valid UTF-8.
    pub closed spec fn wf(&self) -> bool {
        &&& self.len <= N
        &&& self.bytes@.len() == N
        &&& valid_utf8(self@)
    }

    /// The capacity of the field.
    pub open spec fn capacity(&self) -> nat {
        N as nat
    }

    /// An empty field.
    pub fn empty() -> (t: Self)
        ensures
            t.wf(),
            t@ == Seq::<u8>::empty(),
    {
        let t = FieldText { bytes: vstd::array::array_fill_for_copy_types::<u8, N>(0), len: 0 };
        proof {
            assert(t@ =~= Seq::<u8>::empty());
            assert(valid_utf8(Seq::<u8>::empty())) by {
                vstd::utf8::encode_utf8_valid_utf8(Seq::<char>::empty());
                assert(encode_utf8(Seq::<char>::empty()) =~= Seq::<u8>::empty()) by {
                    reveal_with_fuel(encode_utf8, 1);
                }
            }
        }
        t
    }

    /// Stores `value` when it fits; returns whether it did.
    pub fn set(&mut self, value: &str) -> (ok: bool)
        requires
            old(self).wf(),
        ensures
            final(self).wf(),
            ok == (value.spec_bytes().len() <= N),
            ok ==> final(self)@ == value.spec_bytes(),
            !ok ==> final(self)@ == old(self)@,
    {
        let bytes = value.as_bytes();
        if bytes.len() > N {
            return false;
        }
        let mut fresh = vstd::array::array_fill_for_copy_types::<u8, N>(0);
        let mut i: usize = 0;
        while i < bytes.len()
            invariant
                bytes@.len() <= N,
                fresh@.len() == N,
                i <= bytes@.len(),
                forall|k: int| 0 <= k < i ==> fresh@[k] == bytes@[k],
            decreases bytes@.len() - i,
        {
            fresh[i] = bytes[i];
            i = i + 1;
        }
        self.bytes = fresh;
        self.len = bytes.len();
        proof {
            assert(self@ =~= value.spec_bytes());
            vstd::utf8::encode_utf8_valid_utf8(value@);
        }
        true
    }

    /// The text held, as a string slice.
    pub fn as_str(&self) -> (s: &str)
        requires
            self.wf(),
        ensures
            s.spec_bytes() == self@,
    {
        match str_from_utf8(self.as_bytes()) {
            Some(s) => s,
            None => "",
        }
    }

    /// The text held, as bytes.
    pub fn as_bytes(&self) -> (b: &[u8])
        requires
            self.wf(),
        ensures
            b@ == self@,
    {
        vstd::slice::slice_subrange(self.bytes.as_slice(), 0, self.len)
    }
}

/// The big-endian value of a byte string: its last byte is the least
/// significant.
pub open spec fn be_value(bs: Seq<u8>) -> nat
    decreases bs.len(),
{
    if bs.len() == 0 {
        0
    } else {
        be_value(bs.drop_last()) * 256 + bs.last() as nat
    }
}

/// `bs` padded with zero bytes to 8 bytes.
pub open spec fn pad8(bs: Seq<u8>) -> Seq<u8> {
    bs + Seq::new((8 - bs.len()) as nat, |i: int| 0u8)
}

/// The config value a hostname label packs into: its bytes, big-endian,
/// zero-padded to eight.
pub open spec fn packed_hostname(bs: Seq<u8>) -> u64 {
    be_value(pad8(bs)) as u64
}

/// The eight big-endian bytes of a config value.
pub open spec fn be_bytes(value: u64) -> Seq<u8> {
    Seq::new(8, |i: int| byte_of(value as nat, (7 - i) as nat))
}

/// Number of leading nonzero bytes.
pub open spec fn nonzero_prefix_len(bs: Seq<u8>) -> nat
    decreases bs.len(),
{
    if bs.len() == 0 || bs[0] == 0 {
        0
    } else {
        1 + nonzero_prefix_len(bs.drop_first())
    }
}

/// The label a config value carries: the leading nonzero bytes, when every
/// byte after them is zero and they form a hostname label.
pub open spec fn unpacked_hostname(value: u64) -> Option<Seq<u8>> {
    let bs = be_bytes(value);
    let n = nonzero_prefix_len(bs);
    if (forall|i: int| n <= i < 8 ==> bs[i] == 0) && hostname_label(bs.subrange(0, n as int)) {
        Some(bs.subrange(0, n as int))
    } else {
        None
    }
}

proof fn lemma_be_value_bound(bs: Seq<u8>)
    ensures
        be_value(bs) < crate::message::pow256(bs.len()),
    decreases bs.len(),
{
    if bs.len() > 0 {
        lemma_be_value_bound(bs.drop_last());
        let p = crate::message::pow256((bs.len() - 1) as nat);
        let v = be_value(bs.drop_last());
        assert(v * 256 + bs.last() < p * 256) by (nonlinear_arith)
            requires
                v < p,
                bs.last() < 256,
        ;
    }
}

/// The big-endian value of a string is the little-endian value of its
/// reversal.
proof fn lemma_be_is_reversed_le(bs: Seq<u8>)
    ensures
        be_value(bs) == crate::message::le_value(bs.reverse()),
    decreases bs.len(),
{
    if bs.len() > 0 {
        lemma_be_is_reversed_le(bs.drop_last());
        assert(bs.reverse().drop_first() =~= bs.drop_last().reverse());
        assert(bs.reverse()[0] == bs.last());
    }
}

/// Byte `i` (big-endian) of the value packed from `p` is `p[i]`.
proof fn lemma_be_bytes_of_packed(p: Seq<u8>)
    requires
        p.len() == 8,
    ensures
        be_bytes(be_value(p) as u64) =~= p,
{
    lemma_be_value_bound(p);
    crate::message::lemma_pow256_small();
    lemma_be_is_reversed_le(p);
    assert forall|i: int| 0 <= i < 8 implies be_bytes(be_value(p) as u64)[i] == p[i] by {
        crate::message::lemma_byte_of_le_value(p.reverse(), (7 - i) as nat);
    }
}

proof fn lemma_nonzero_prefix(bs: Seq<u8>, n: nat)
    requires
        n <= bs.len(),
        forall|i: int| 0 <= i < n ==> bs[i] != 0,
        n == bs.len() || bs[n as int] == 0,
    ensures
        nonzero_prefix_len(bs) == n,
    decreases n,
{
    if n > 0 {
        lemma_nonzero_prefix(bs.drop_first(), (n - 1) as nat);
    }
}

/// Pack a validated hostname label big-endian into a config value.
pub fn pack_hostname(label: &str) -> (r: Option<u64>)
    ensures
        r == (if hostname_label(label.spec_bytes()) {
            Some(packed_hostname(label.spec_bytes()))
        } else {
            None
        }),
{
    if !is_hostname_label(label) {
        return None;
    }
    let bytes = label.as_bytes();
    let ghost p = pad8(bytes@);
    let mut w: u64 = 0;
    let mut i: usize = 0;
    while i < 8
        invariant
            1 <= bytes@.len() <= 8,
            p == pad8(bytes@),
            p.len() == 8,
            i <= 8,
            w == be_value(p.subrange(0, i as int)),
        decreases 8 - i,
    {
        let b: u8 = if i < bytes.len() {
            bytes[i]
        } else {
            0
        };
        proof {
            assert(p.subrange(0, i + 1).drop_last() =~= p.subrange(0, i as int));
            assert(p[i as int] == b);
            lemma_be_value_bound(p.subrange(0, i as int));
            crate::message::lemma_pow256_small();
            crate::message::lemma_pow256_monotone(i as nat, 7);
        }
        w = w * 256 + b as u64;
        i = i + 1;
    }
    proof {
        assert(p.subrange(0, 8) =~= p);
    }
    Some(w)
}

/// Inverse of `pack_hostname`, for displaying the stored value.
pub fn unpack_hostname(value: u64) -> (r: Option<FieldText<8>>)
    ensures
        r is Some <==> unpacked_hostname(value) is Some,
        r matches Some(t) ==> t.wf() && t@ == unpacked_hostname(value)->0,
{
    let mut bytes: [u8; 8] = [0u8; 8];
    let mut cur: u64 = value;
    let mut k: usize = 0;
    while k < 8
        invariant
            k <= 8,
            forall|t: int| 8 - k <= t < 8 ==> bytes[t] == byte_of(value as nat, (7 - t) as nat),
            forall|j: nat| #![trigger byte_of(cur as nat, j)] byte_of(cur as nat, j) == byte_of(value as nat, (j + k) as nat),
        decreases 8 - k,
    {
        bytes[7 - k] = (cur % 256) as u8;
        proof {
            assert(byte_of(cur as nat, 0) == (cur % 256) as u8);
            assert forall|j: nat| #![trigger byte_of((cur / 256) as nat, j)] byte_of((cur / 256) as nat, j) == byte_of(value as nat, (j + k + 1) as nat) by {
                assert(byte_of(cur as nat, j + 1) == byte_of(cur as nat / 256, j));
                assert(byte_of(cur as nat, j + 1) == byte_of(value as nat, (j + 1 + k) as nat));
            }
        }
        cur = cur / 256;
        k = k + 1;
    }
    let ghost bs = be_bytes(value);
    proof {
        assert(bytes@ =~= bs);
    }
    let mut len: usize = 0;
    while len < 8 && bytes[len] != 0
        invariant
            len <= 8,
            bytes@ == bs,
            forall|i: int| 0 <= i < len ==> bs[i] != 0,
        decreases 8 - len,
    {
        len = len + 1;
    }
    proof {
        lemma_nonzero_prefix(bs, len as nat);
    }
    let mut i: usize = len;
    while i < 8
        invariant
            len <= i <= 8,
            bytes@ == bs,
            bs == be_bytes(value),
            nonzero_prefix_len(bs) == len,
            forall|t: int| len <= t < i ==> bs[t] == 0,
        decreases 8 - i,
    {
        if bytes[i] != 0 {
            assert(bs[i as int] != 0);
            return None;
        }
        i = i + 1;
    }
    let prefix = vstd::slice::slice_subrange(bytes.as_slice(), 0, len);
    assert(prefix@ == bs.subrange(0, len as int));
    if !label_bytes(prefix) {
        return None;
    }
    let label = match str_from_utf8(prefix) {
        Some(s) => s,
        None => {
            proof {
                assert(valid_utf8(prefix@)) by {
                    lemma_ascii_label_valid_utf8(prefix@);
                }
            }
            return None;
        },
    };
    let mut out = FieldText::<8>::empty();
    out.set(label);
    Some(out)
}

/// A hostname label is ASCII and hence valid UTF-8.
proof fn lemma_ascii_label_valid_utf8(bs: Seq<u8>)
    requires
        hostname_label(bs),
    ensures
        valid_utf8(bs),
{
    let chars = Seq::new(bs.len(), |i: int| bs[i] as char);
    assert(vstd::utf8::is_ascii_chars(chars));
    vstd::utf8::is_ascii_chars_encode_utf8(chars);
    vstd::utf8::encode_utf8_valid_utf8(chars);
    assert(encode_utf8(chars) =~= bs);
}

/// Packing a hostname label and unpacking the value gives the label back.
pub proof fn lemma_hostname_round_trip(bs: Seq<u8>)
    requires
        hostname_label(bs),
    ensures
        unpacked_hostname(packed_hostname(bs)) == Some(bs),
{
    let p = pad8(bs);
    assert(p.len() == 8);
    lemma_be_bytes_of_packed(p);
    let v = packed_hostname(bs);
    assert(be_bytes(v) =~= p);
    assert forall|i: int| 0 <= i < bs.len() implies p[i] != 0 by {
        assert(is_alnum(bs[i]) || bs[i] == 45);
    }
    lemma_nonzero_prefix(p, bs.len());
    assert(p.subrange(0, bs.len() as int) =~= bs);
}

proof fn lemma_nonzero_prefix_bound(bs: Seq<u8>)
    ensures
        nonzero_prefix_len(bs) <= bs.len(),
        forall|i: int| 0 <= i < nonzero_prefix_len(bs) ==> bs[i] != 0,
    decreases bs.len(),
{
    if bs.len() > 0 && bs[0] != 0 {
        lemma_nonzero_prefix_bound(bs.drop_first());
        assert forall|i: int| 0 <= i < nonzero_prefix_len(bs) implies bs[i] != 0 by {
            if i > 0 {
                assert(bs[i] == bs.drop_first()[i - 1]);
            }
        }
    }
}

/// The little-endian bytes of a value below `256^n`, read back, give the
/// value.
proof fn lemma_le_value_of_bytes(w: nat, n: nat)
    requires
        w < crate::message::pow256(n),
    ensures
        crate::message::le_value(Seq::new(n, |k: int| byte_of(w, k as nat))) == w,
    decreases n,
{
    let s = Seq::new(n, |k: int| byte_of(w, k as nat));
    if n > 0 {
        let p = crate::message::pow256((n - 1) as nat);
        assert(w / 256 < p && w == w % 256 + 256 * (w / 256)) by (nonlinear_arith)
            requires
                w < 256 * p,
        ;
        lemma_le_value_of_bytes(w / 256, (n - 1) as nat);
        assert(s.drop_first() =~= Seq::new((n - 1) as nat, |k: int| byte_of(w / 256, k as nat)));
    }
}

/// A config value read as its eight big-endian bytes and packed again is
/// the same value.
proof fn lemma_be_value_of_be_bytes(v: u64)
    ensures
        be_value(be_bytes(v)) == v,
{
    let bs = be_bytes(v);
    lemma_be_is_reversed_le(bs);
    assert(bs.reverse() =~= Seq::new(8, |k: int| byte_of(v as nat, k as nat)));
    crate::message::lemma_pow256_small();
    lemma_le_value_of_bytes(v as nat, 8);
}

/// A config value that unpacks to a label packs back from that label to the
/// same value, and the label is a hostname label.
pub proof fn lemma_unpacked_hostname_packs_back(v: u64)
    ensures
        unpacked_hostname(v) matches Some(t) ==> hostname_label(t) && packed_hostname(t) == v,
{
    if let Some(t) = unpacked_hostname(v) {
        let bs = be_bytes(v);
        let n = nonzero_prefix_len(bs);
        lemma_nonzero_prefix_bound(bs);
        assert(t =~= bs.subrange(0, n as int));
        assert(pad8(t) =~= bs);
        lemma_be_value_of_be_bytes(v);
    }
}

#[derive(Clone, Copy, Debug, PartialEq, Eq, Structural)]
pub enum StepId {
    Hostname,
    Timezone,
    AdminName,
    AdminSecret,
    Confirm,
    Done,
}

impl StepId {
    /// The prompt printed for this step.
    pub open spec fn spec_prompt(self) -> &'static str {
        match self {
            StepId::Hostname => HOSTNAME_PROMPT,
            StepId::Timezone => TIMEZONE_PROMPT,
            StepId::AdminName => ADMIN_NAME_PROMPT,
            StepId::AdminSecret => ADMIN_SECRET_PROMPT,
            StepId::Confirm => CONFIRM_PROMPT,
            StepId::Done => DONE_PROMPT,
        }
    }

    /// The prompt printed for this step.
    pub fn prompt(self) -> (s: &'static str)
        ensures
            s == self.spec_prompt(),
    {
        match self {
            StepId::Hostname => HOSTNAME_PROMPT,
            StepId::Timezone => TIMEZONE_PROMPT,
            StepId::AdminName => ADMIN_NAME_PROMPT,
            StepId::AdminSecret => ADMIN_SECRET_PROMPT,
            StepId::Confirm => CONFIRM_PROMPT,
            StepId::Done => DONE_PROMPT,
        }
    }
}

#[derive(Clone, Copy, Debug, PartialEq, Eq)]
pub enum Feed {
    /// Input accepted; move to the next step.
    Advance,
    /// Input rejected; stay on this step (`reason` is operator-facing).
    Retry(&'static str),
    /// Confirm accepted; wizard state is final.
    Complete,
    /// Confirm declined; restart from the first step.
    Restart,
}

/// Abstract state of the wizard: the current step and the values entered so
/// far, as bytes.
pub struct WizardView {
    pub step: StepId,
    pub hostname: Seq<u8>,
    pub timezone: Seq<u8>,
    pub admin_name: Seq<u8>,
    pub admin_secret: Seq<u8>,
}

/// A fresh wizard: at the first step, nothing entered.
pub open spec fn initial_view() -> WizardView {
    WizardView {
        step: StepId::Hostname,
        hostname: Seq::empty(),
        timezone: Seq::empty(),
        admin_name: Seq::empty(),
        admin_secret: Seq::empty(),
    }
}

/// The input a step works with: the trimmed line, or the step's default when
/// the trimmed line is empty.
pub open spec fn step_value(trimmed: Seq<u8>, default: &str) -> Seq<u8> {
    if trimmed.len() == 0 {
        default.spec_bytes()
    } else {
        trimmed
    }
}

/// Outcome of feeding a line whose trimmed bytes are `t` to a wizard in
/// state `v`: the new state and the reply.
pub open spec fn feed_outcome(v: WizardView, t: Seq<u8>) -> (WizardView, Feed) {
    match v.step {
        StepId::Hostname => {
            let value = step_value(t, DEFAULT_HOSTNAME);
            if hostname_label(value) {
                (WizardView { step: StepId::Timezone, hostname: value, ..v }, Feed::Advance)
            } else {
                (v, Feed::Retry(HOSTNAME_HINT))
            }
        },
        StepId::Timezone => {
            let value = step_value(t, DEFAULT_TIMEZONE);
            if free_text(value, 24) {
                (WizardView { step: StepId::AdminName, timezone: value, ..v }, Feed::Advance)
            } else {
                (v, Feed::Retry(TIMEZONE_HINT))
            }
        },
        StepId::AdminName => {
            let value = step_value(t, DEFAULT_ADMIN_NAME);
            if account_name(value) {
                (WizardView { step: StepId::AdminSecret, admin_name: value, ..v }, Feed::Advance)
            } else {
                (v, Feed::Retry(ADMIN_NAME_HINT))
            }
        },
        StepId::AdminSecret => {
            let value = step_value(t, DEFAULT_ADMIN_SECRET);
            if admin_secret(value) {
                (WizardView { step: StepId::Confirm, admin_secret: value, ..v }, Feed::Advance)
            } else {
                (v, Feed::Retry(ADMIN_SECRET_HINT))
            }
        },
        StepId::Confirm => {
            if t == "".spec_bytes() || t == "y".spec_bytes() || t == "yes".spec_bytes() {
                (WizardView { step: StepId::Done, ..v }, Feed::Complete)
            } else if t == "n".spec_bytes() || t == "no".spec_bytes() {
                (initial_view(), Feed::Restart)
            } else {
                (v, Feed::Retry(CONFIRM_HINT))
            }
        },
        StepId::Done => (v, Feed::Complete),
    }
}

#[derive(Clone, Copy)]
pub struct WizardState {
    step: StepId,
    hostname: FieldText<8>,
    timezone: FieldText<24>,
    admin_name: FieldText<32>,
    admin_secret: FieldText<64>,
}

impl View for WizardState {
    type V = WizardView;

    closed spec fn view(&self) -> WizardView {
        WizardView {
            step: self.step,
            hostname: self.hostname@,
            timezone: self.timezone@,
            admin_name: self.admin_name@,
            admin_secret: self.admin_secret@,
        }
    }
}

impl WizardState {
    /// The wizard's invariant: every field is well formed.
    pub closed spec fn wf(&self) -> bool {
        &&& self.hostname.wf()
        &&& self.timezone.wf()
        &&& self.admin_name.wf()
        &&& self.admin_secret.wf()
    }

    /// A fresh wizard at the hostname step.
    pub fn new() -> (w: Self)
        ensures
            w.wf(),
            w@ == initial_view(),
    {
        WizardState {
            step: StepId::Hostname,
            hostname: FieldText::empty(),
            timezone: FieldText::empty(),
            admin_name: FieldText::empty(),
            admin_secret: FieldText::empty(),
        }
    }

    pub fn step(&self) -> (s: StepId)
        ensures
            s == self@.step,
    {
        self.step
    }

    pub fn hostname(&self) -> (s: &str)
        requires
            self.wf(),
        ensures
            s.spec_bytes() == self@.hostname,
    {
        self.hostname.as_str()
    }

    pub fn timezone(&self) -> (s: &str)
        requires
            self.wf(),
        ensures
            s.spec_bytes() == self@.timezone,
    {
        self.timezone.as_str()
    }

    pub fn admin_name(&self) -> (s: &str)
        requires
            self.wf(),
        ensures
            s.spec_bytes() == self@.admin_name,
    {
        self.admin_name.as_str()
    }

    pub fn admin_secret(&self) -> (s: &str)
        requires
            self.wf(),
        ensures
            s.spec_bytes() == self@.admin_secret,
    {
        self.admin_secret.as_str()
    }

    /// Feed one serial input line into the current step. An empty line (after
    /// trimming whitespace) means "accept the default".
    pub fn feed(&mut self, line: &str) -> (f: Feed)
        requires
            old(self).wf(),
        ensures
            final(self).wf(),
            exists|t: &str|
                #![trigger t@]
                crate::text::is_trim_of(t@, line@) && (final(self)@, f) == feed_outcome(
                    old(self)@,
                    t.spec_bytes(),
                ),
    {
        let line = str_trim(line);
        let ghost t = line.spec_bytes();
        let bytes = line.as_bytes();
        let empty = bytes.len() == 0;
        let f = match self.step {
            StepId::Hostname => {
                let value = if empty {
                    DEFAULT_HOSTNAME
                } else {
                    line
                };
                if is_hostname_label(value) && self.hostname.set(value) {
                    self.step = StepId::Timezone;
                    Feed::Advance
                } else {
                    Feed::Retry(HOSTNAME_HINT)
                }
            },
            StepId::Timezone => {
                let value = if empty {
                    DEFAULT_TIMEZONE
                } else {
                    line
                };
                if is_free_text(value, TIMEZONE_MAX) && self.timezone.set(value) {
                    self.step = StepId::AdminName;
                    Feed::Advance
                } else {
                    Feed::Retry(TIMEZONE_HINT)
                }
            },
            StepId::AdminName => {
                let value = if empty {
                    DEFAULT_ADMIN_NAME
                } else {
                    line
                };
                if is_account_name(value) && self.admin_name.set(value) {
                    self.step = StepId::AdminSecret;
                    Feed::Advance
                } else {
                    Feed::Retry(ADMIN_NAME_HINT)
                }
            },
            StepId::AdminSecret => {
                let value = if empty {
                    DEFAULT_ADMIN_SECRET
                } else {
                    line
                };
                if is_admin_secret(value) && self.admin_secret.set(value) {
                    self.step = StepId::Confirm;
                    Feed::Advance
                } else {
                    Feed::Retry(ADMIN_SECRET_HINT)
                }
            },
            StepId::Confirm => {
                if bytes_eq(bytes, "".as_bytes()) || bytes_eq(bytes, "y".as_bytes())
                    || bytes_eq(bytes, "yes".as_bytes()) {
                    self.step = StepId::Done;
                    Feed::Complete
                } else if bytes_eq(bytes, "n".as_bytes()) || bytes_eq(bytes, "no".as_bytes()) {
                    *self = WizardState::new();
                    Feed::Restart
                } else {
                    Feed::Retry(CONFIRM_HINT)
                }
            },
            StepId::Done => Feed::Complete,
        };
        proof {
            assert(t.len() == 0 <==> empty);
            assert((self@, f) == feed_outcome(old(self)@, t));
        }
        f
    }
}

/// A rejected line leaves the wizard exactly where it was; a declined
/// confirmation restarts it with nothing entered; once done, it stays done.
pub proof fn lemma_feed_retry_restart_done(v: WizardView, t: Seq<u8>)
    ensures
        feed_outcome(v, t).1 is Retry ==> feed_outcome(v, t).0 == v,
        feed_outcome(v, t).1 is Restart ==> feed_outcome(v, t).0 == initial_view(),
        v.step == StepId::Done ==> feed_outcome(v, t) == (v, Feed::Complete),
        feed_outcome(v, t).1 is Advance ==> feed_outcome(v, t).0.step != v.step,
{
}

impl Default for WizardState {
    /// A fresh wizard (see `WizardState::new`).
    fn default() -> (w: Self)
        ensures
            w.wf(),
            w@ == initial_view(),
    {
        WizardState::new()
    }
}

/// The longest line the wizard reads from the serial console.
pub const MAX_LINE: usize = 96;

/// Appends `byte` to `line` when there is room and the text stays UTF-8;
/// otherwise nothing changes. Whether it was appended.
pub fn push_byte<const N: usize>(line: &mut FieldText<N>, byte: u8) -> (pushed: bool)
    requires
        old(line).wf(),
    ensures
        final(line).wf(),
        pushed == (old(line)@.len() < N && valid_utf8(old(line)@.push(byte))),
        pushed ==> final(line)@ == old(line)@.push(byte),
        !pushed ==> final(line)@ == old(line)@,
{
    let len = line.len;
    if len >= N {
        return false;
    }
    let mut grown = line.bytes;
    grown[len] = byte;
    let (head, _) = grown.as_slice().split_at(len + 1);
    proof {
        assert(head@ =~= old(line)@.push(byte));
    }
    if str_from_utf8(head).is_none() {
        return false;
    }
    line.bytes = grown;
    line.len = len + 1;
    proof {
        assert(line@ =~= old(line)@.push(byte));
    }
    true
}

/// One byte typed on the serial console while a line is read: a carriage
/// return or line feed submits the line (`true`, unchanged); a printable
/// ASCII byte is appended while it fits; anything else is ignored.
pub fn feed_line_byte(line: &mut FieldText<96>, byte: u8) -> (submitted: bool)
    requires
        old(line).wf(),
    ensures
        final(line).wf(),
        submitted == (byte == 13 || byte == 10),
        (submitted || !(32 <= byte < 127) || old(line)@.len() >= 96) ==> final(line)@ == old(line)@,
        (!submitted && 32 <= byte < 127 && old(line)@.len() < 96) ==> final(line)@ == old(line)@.push(byte),
{
    if byte == 13 || byte == 10 {
        return true;
    }
    if 32 <= byte && byte < 127 {
        proof {
            lemma_push_ascii_valid(old(line)@, byte);
        }
        let _ = push_byte(line, byte);
    }
    false
}

proof fn lemma_push_ascii_valid(text: Seq<u8>, byte: u8)
    requires
        valid_utf8(text),
        byte < 128,
    ensures
        valid_utf8(text.push(byte)),
{
    crate::text::lemma_ascii_valid_utf8(seq![byte]);
    vstd::utf8::valid_utf8_concat(text, seq![byte]);
    assert(text + seq![byte] =~= text.push(byte));
}

/// The completion record of a setup run: the hostname, timezone and admin
/// name chosen.
pub open spec fn summary_text(v: WizardView) -> Seq<u8> {
    "hostname=".spec_bytes() + v.hostname + " timezone=".spec_bytes() + v.timezone + " admin=".spec_bytes() + v.admin_name
}

/// The completion record of a setup run (see `summary_text`); it is the
/// content of the first-boot marker.
pub fn build_summary(state: &WizardState) -> (t: Vec<u8>)
    requires
        state.wf(),
    ensures
        t@ == summary_text(state@),
{
    let mut t: Vec<u8> = Vec::new();
    crate::text::push_bytes(&mut t, "hostname=".as_bytes());
    crate::text::push_bytes(&mut t, state.hostname().as_bytes());
    crate::text::push_bytes(&mut t, " timezone=".as_bytes());
    crate::text::push_bytes(&mut t, state.timezone().as_bytes());
    crate::text::push_bytes(&mut t, " admin=".as_bytes());
    crate::text::push_bytes(&mut t, state.admin_name().as_bytes());
    t
}

/// The position of the last '/' of a path, which parts the directory (up
/// to and with it) from the file name.
pub fn split_parent(path: &str) -> (k: Option<usize>)
    ensures
        k matches Some(i) ==> i < path.spec_bytes().len() && path.spec_bytes()[i as int] == 47u8
            && forall|j: int| i < j < path.spec_bytes().len() ==> path.spec_bytes()[j] != 47u8,
        k is None ==> forall|j: int| 0 <= j < path.spec_bytes().len() ==> path.spec_bytes()[j] != 47u8,
{
    let bytes = path.as_bytes();
    let mut i: usize = bytes.len();
    while i > 0
        invariant
            i <= bytes@.len(),
            bytes@ == path.spec_bytes(),
            forall|j: int| i <= j < bytes@.len() ==> bytes@[j] != 47u8,
        decreases i,
    {
        if bytes[i - 1] == 47 {
            return Some(i - 1);
        }
        i = i - 1;
    }
    None
}

/// `r` lists the segments of `path`: the maximal runs of bytes other than
/// '/', in order, each as its start and end position.
pub open spec fn are_segments(path: Seq<u8>, r: Seq<(usize, usize)>) -> bool {
    &&& forall|i: int| 0 <= i < r.len() ==> (#[trigger] r[i]).0 < r[i].1 <= path.len()
    &&& forall|i: int, k: int| #![trigger r[i], path[k]] 0 <= i < r.len() && r[i].0 <= k < r[i].1 ==> path[k] != 47u8
    &&& forall|i: int| 0 <= i < r.len() ==> (#[trigger] r[i]).0 == 0 || path[r[i].0 - 1] == 47u8
    &&& forall|i: int| 0 <= i < r.len() ==> (#[trigger] r[i]).1 == path.len() || path[r[i].1 as int] == 47u8
    &&& forall|i: int, j: int| 0 <= i < j < r.len() ==> (#[trigger] r[i]).1 <= (#[trigger] r[j]).0
    &&& forall|k: int| 0 <= k < path.len() && path[k] != 47u8 ==> exists|i: int| 0 <= i < r.len() && (#[trigger] r[i]).0 <= k < r[i].1
}

/// The segments of a path (see `are_segments`): empty segments, from
/// leading, trailing or doubled slashes, are skipped.
pub fn path_segments(path: &[u8]) -> (r: Vec<(usize, usize)>)
    ensures
        are_segments(path@, r@),
{
    let n = path.len();
    let mut r: Vec<(usize, usize)> = Vec::new();
    let mut i: usize = 0;
    while i < n
        invariant
            n == path@.len(),
            i <= n,
            forall|t: int| 0 <= t < r@.len() ==> (#[trigger] r@[t]).0 < r@[t].1 <= i,
            forall|t: int, k: int| #![trigger r@[t], path@[k]] 0 <= t < r@.len() && r@[t].0 <= k < r@[t].1 ==> path@[k] != 47u8,
            forall|t: int| 0 <= t < r@.len() ==> (#[trigger] r@[t]).0 == 0 || path@[r@[t].0 - 1] == 47u8,
            forall|t: int| 0 <= t < r@.len() ==> (#[trigger] r@[t]).1 == n || path@[r@[t].1 as int] == 47u8,
            forall|t: int, u: int| 0 <= t < u < r@.len() ==> (#[trigger] r@[t]).1 <= (#[trigger] r@[u]).0,
            forall|k: int| 0 <= k < i && path@[k] != 47u8 ==> exists|t: int| 0 <= t < r@.len() && (#[trigger] r@[t]).0 <= k < r@[t].1,
            i == 0 || i == n || path@[i - 1] == 47u8 || (r@.len() > 0 && r@.last().1 == i),
            i < n && path@[i as int] != 47u8 ==> i == 0 || path@[i - 1] == 47u8,
        decreases n - i,
    {
        if path[i] == 47 {
            i = i + 1;
        } else {
            let start = i;
            while i < n && path[i] != 47
                invariant
                    n == path@.len(),
                    start < n,
                    start <= i <= n,
                    forall|k: int| start <= k < i ==> path@[k] != 47u8,
                decreases n - i,
            {
                i = i + 1;
            }
            let ghost before = r@;
            r.push((start, i));
            proof {
                assert forall|k: int| 0 <= k < i && path@[k] != 47u8 implies exists|t: int| 0 <= t < r@.len() && (#[trigger] r@[t]).0 <= k < r@[t].1 by {
                    if k >= start {
                        assert(r@[r@.len() - 1].0 <= k < r@[r@.len() - 1].1);
                    } else {
                        let t = choose|t: int| 0 <= t < before.len() && (#[trigger] before[t]).0 <= k < before[t].1;
                        assert(r@[t] == before[t]);
                    }
                }
            }
        }
    }
    r
}


/// At the admin-secret step, a non-empty trimmed line is judged byte by
/// byte: a line of at most 64 bytes, each a printable ASCII byte or a space
/// (32 to 126), is stored as the secret and the wizard moves on to
/// confirmation; a line with any other byte, or longer than 64 bytes, is
/// refused and the wizard stays where it is.
pub proof fn lemma_admin_secret_accepts_printable(v: WizardView, t: Seq<u8>)
    requires
        v.step == StepId::AdminSecret,
        t.len() >= 1,
    ensures
        t.len() <= 64 && (forall|i: int| 0 <= i < t.len() ==> 32 <= #[trigger] t[i] && t[i] <= 126)
            ==> feed_outcome(v, t) == (WizardView { step: StepId::Confirm, admin_secret: t, ..v }, Feed::Advance),
        (t.len() > 64 || exists|i: int| 0 <= i < t.len() && (#[trigger] t[i] < 32 || t[i] > 126))
            ==> feed_outcome(v, t) == (v, Feed::Retry(ADMIN_SECRET_HINT)),
{
}

} // verus!
