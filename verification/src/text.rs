//! Text helpers over byte strings, and the two `str` operations of std
//! whose behaviour vstd does not specify.
use vstd::prelude::*;
use vstd::string::StringSliceAdditionalSpecFns;
use vstd::utf8::{pop_first_scalar, valid_first_scalar, valid_utf8};

verus! {

/// Unicode `White_Space`: the characters `char::is_whitespace` accepts.
pub open spec fn is_unicode_whitespace(c: char) -> bool {
    let u = c as u32;
    ||| (0x09 <= u && u <= 0x0d)
    ||| u == 0x20
    ||| u == 0x85
    ||| u == 0xa0
    ||| u == 0x1680
    ||| (0x2000 <= u && u <= 0x200a)
    ||| u == 0x2028
    ||| u == 0x2029
    ||| u == 0x202f
    ||| u == 0x205f
    ||| u == 0x3000
}

/// `t` is `s` with its leading and trailing whitespace removed.
pub open spec fn is_trim_of(t: Seq<char>, s: Seq<char>) -> bool {
    exists|i: int, j: int|
        0 <= i <= j <= s.len() && t == s.subrange(i, j) && (forall|k: int|
            0 <= k < i ==> is_unicode_whitespace(#[trigger] s[k])) && (forall|k: int|
            j <= k < s.len() ==> is_unicode_whitespace(#[trigger] s[k])) && (t.len() > 0
            ==> !is_unicode_whitespace(t[0]) && !is_unicode_whitespace(t[t.len() - 1]))
}

/// `str::trim` of std: the sub-slice of `s` without leading and trailing
/// Unicode `White_Space` characters. The contract states exactly that, over
/// the characters of both strings.
#[verifier::external_body]
pub fn str_trim(s: &str) -> (t: &str)
    ensures
        is_trim_of(t@, s@),
{
    s.trim()
}

/// `core::str::from_utf8` of std: `Some` exactly when the bytes are valid
/// UTF-8, and then a string slice whose bytes are those bytes.
#[verifier::external_body]
pub fn str_from_utf8(bytes: &[u8]) -> (r: Option<&str>)
    ensures
        r is Some <==> valid_utf8(bytes@),
        r matches Some(s) ==> s.spec_bytes() == bytes@,
{
    core::str::from_utf8(bytes).ok()
}

/// Whether two byte strings are equal.
pub fn bytes_eq(a: &[u8], b: &[u8]) -> (r: bool)
    ensures
        r == (a@ == b@),
{
    if a.len() != b.len() {
        return false;
    }
    let mut i: usize = 0;
    while i < a.len()
        invariant
            a@.len() == b@.len(),
            i <= a@.len(),
            forall|k: int| 0 <= k < i ==> a@[k] == b@[k],
        decreases a@.len() - i,
    {
        if a[i] != b[i] {
            return false;
        }
        i = i + 1;
    }
    assert(a@ =~= b@);
    true
}

/// Whether `a` begins with `b`.
pub fn bytes_start_with(a: &[u8], b: &[u8]) -> (r: bool)
    ensures
        r == (b@.len() <= a@.len() && a@.subrange(0, b@.len() as int) == b@),
{
    if b.len() > a.len() {
        return false;
    }
    let mut i: usize = 0;
    while i < b.len()
        invariant
            b@.len() <= a@.len(),
            i <= b@.len(),
            forall|k: int| 0 <= k < i ==> a@[k] == b@[k],
        decreases b@.len() - i,
    {
        if a[i] != b[i] {
            assert(a@.subrange(0, b@.len() as int)[i as int] != b@[i as int]);
            return false;
        }
        i = i + 1;
    }
    assert(a@.subrange(0, b@.len() as int) =~= b@);
    true
}


/// Appends the bytes `b` to `out`.
pub fn push_bytes(out: &mut Vec<u8>, b: &[u8])
    ensures
        final(out)@ == old(out)@ + b@,
{
    let n = b.len();
    let mut i: usize = 0;
    while i < n
        invariant
            n == b@.len(),
            i <= n,
            out@ == old(out)@ + b@.subrange(0, i as int),
        decreases n - i,
    {
        out.push(b[i]);
        i = i + 1;
        assert(out@ =~= old(out)@ + b@.subrange(0, i as int));
    }
    assert(b@.subrange(0, n as int) =~= b@);
}

/// Appends `count` spaces to `out`.
pub fn push_spaces(out: &mut Vec<u8>, count: usize)
    ensures
        final(out)@ == old(out)@ + spaces(count as nat),
{
    let mut i: usize = 0;
    while i < count
        invariant
            i <= count,
            out@ == old(out)@ + spaces(i as nat),
        decreases count - i,
    {
        out.push(32);
        i = i + 1;
        assert(out@ =~= old(out)@ + spaces(i as nat));
    }
}

/// `n` spaces.
pub open spec fn spaces(n: nat) -> Seq<u8> {
    Seq::new(n, |i: int| 32u8)
}

/// `s` right-aligned in a field of `width` bytes: spaces before it when it
/// is shorter.
pub open spec fn pad_left(s: Seq<u8>, width: nat) -> Seq<u8> {
    if s.len() >= width { s } else { spaces((width - s.len()) as nat) + s }
}

/// `s` left-aligned in a field of `width` bytes: spaces after it when it is
/// shorter.
pub open spec fn pad_right(s: Seq<u8>, width: nat) -> Seq<u8> {
    if s.len() >= width { s } else { s + spaces((width - s.len()) as nat) }
}

/// Bytes below 128 are valid UTF-8 (each is a one-byte scalar).
pub proof fn lemma_ascii_valid_utf8(b: Seq<u8>)
    requires
        forall|i: int| 0 <= i < b.len() ==> #[trigger] b[i] < 128,
    ensures
        valid_utf8(b),
    decreases b.len(),
{
    if b.len() > 0 {
        let x = b[0];
        assert(x & 0x7f <= 0x7f) by (bit_vector);
        assert(valid_first_scalar(b));
        assert(pop_first_scalar(b) =~= b.drop_first());
        lemma_ascii_valid_utf8(b.drop_first());
    }
}

} // verus!
