//! The security service's policy file: one `image=policy` line per table
//! entry, image and policy by their numbers. Loading applies every line
//! that names an application of the table; writing produces the whole
//! table, so that loading what was written gives the table back.
use vstd::prelude::*;
use vstd::string::StringSliceAdditionalSpecFns;
use vstd::utf8::{decode_utf8, encode_utf8, valid_utf8};

use crate::abi::PermissionPolicyState;
use crate::decode::{image_id_from_word, permission_policy_state_from_word};
use crate::error::{Error, Result};
use crate::security_service::{policy_index, policy_index_of, policy_table, SecurityState};
use crate::settings::{decimal, digits_value, is_digit, lemma_digits_value_grows, push_decimal};
use crate::text::{is_trim_of, is_unicode_whitespace, str_from_utf8, str_trim};

verus! {

/// Where the policy file lives in the service's storage.
pub const POLICY_PATH: &'static str = "state/security/launch-policy.cfg";
/// The most bytes of the policy file that are read.
pub const MAX_STATE_BYTES: usize = 256;

/// Index of the first byte `c` of `b` at or after `i`.
pub open spec fn index_from(b: Seq<u8>, c: u8, i: int) -> Option<int>
    decreases b.len() - i,
{
    if i >= b.len() {
        None
    } else if b[i] == c {
        Some(i)
    } else {
        index_from(b, c, i + 1)
    }
}

/// What `index_from` finds is the first `c` at or after `i`.
pub proof fn lemma_index_from(b: Seq<u8>, c: u8, i: int)
    requires
        0 <= i,
    ensures
        index_from(b, c, i) matches Some(k) ==> i <= k < b.len() && b[k] == c && forall|j: int| i <= j < k ==> b[j] != c,
        index_from(b, c, i) is None ==> forall|j: int| i <= j < b.len() ==> b[j] != c,
    decreases b.len() - i,
{
    if i < b.len() && b[i] != c {
        lemma_index_from(b, c, i + 1);
    }
}

/// The value `str::parse::<u32>` gives a text: an optional `+`, then one
/// or more decimal digits whose value fits 32 bits.
pub open spec fn u32_text(b: Seq<u8>) -> Option<u32> {
    let d = unsigned_digits(b);
    if d.len() == 0 || !all_digits(d) || digits_value(d) > u32::MAX {
        None
    } else {
        Some(digits_value(d) as u32)
    }
}

/// The digits of a number's text: the text without a leading `+`.
pub open spec fn unsigned_digits(b: Seq<u8>) -> Seq<u8> {
    if b.len() > 0 && b[0] == 43 { b.drop_first() } else { b }
}

/// Every byte is a decimal digit.
pub open spec fn all_digits(d: Seq<u8>) -> bool {
    forall|i: int| 0 <= i < d.len() ==> is_digit(#[trigger] d[i])
}

/// Parses a number the way `str::parse::<u32>` does.
pub fn parse_u32_text(b: &[u8]) -> (v: Option<u32>)
    ensures
        v == u32_text(b@),
{
    let start: usize = if b.len() > 0 && b[0] == 43 { 1 } else { 0 };
    let ghost d = unsigned_digits(b@);
    assert(d =~= b@.subrange(start as int, b@.len() as int));
    if b.len() == start {
        return None;
    }
    let mut value: u64 = 0;
    let mut i: usize = start;
    while i < b.len()
        invariant
            start <= i <= b@.len(),
            d == b@.subrange(start as int, b@.len() as int),
            d == unsigned_digits(b@),
            d.len() > 0,
            value == digits_value(d.subrange(0, i - start)),
            value <= u32::MAX,
            forall|j: int| 0 <= j < i - start ==> is_digit(#[trigger] d[j]),
        decreases b@.len() - i,
    {
        let c = b[i];
        if !(48 <= c && c <= 57) {
            proof {
                assert(d[i - start] == b@[i as int]);
                assert(!is_digit(d[i - start]));
                assert(!all_digits(d));
            }
            return None;
        }
        proof {
            assert(d.subrange(0, i - start + 1).drop_last() =~= d.subrange(0, i - start));
        }
        value = value * 10 + (c - 48) as u64;
        if value > u32::MAX as u64 {
            proof {
                if all_digits(d) {
                    lemma_digits_value_grows(d, i - start + 1);
                    assert(digits_value(d) > u32::MAX);
                }
            }
            return None;
        }
        i = i + 1;
    }
    proof {
        assert(d.subrange(0, d.len() as int) =~= d);
    }
    Some(value as u32)
}

/// The characters `str::trim` keeps of `s`.
pub open spec fn trim_chars(s: Seq<char>) -> Seq<char> {
    choose|t: Seq<char>| is_trim_of(t, s)
}

/// `str::trim` has one outcome: any trim of `s` is `trim_chars(s)`.
pub proof fn lemma_trim_unique(t: Seq<char>, s: Seq<char>)
    requires
        is_trim_of(t, s),
    ensures
        t == trim_chars(s),
{
    let u = trim_chars(s);
    assert(is_trim_of(u, s));
    let (i1, j1) = choose|i: int, j: int|
        0 <= i <= j <= s.len() && t == s.subrange(i, j) && (forall|k: int| 0 <= k < i ==> is_unicode_whitespace(#[trigger] s[k]))
            && (forall|k: int| j <= k < s.len() ==> is_unicode_whitespace(#[trigger] s[k]))
            && (t.len() > 0 ==> !is_unicode_whitespace(t[0]) && !is_unicode_whitespace(t[t.len() - 1]));
    let (i2, j2) = choose|i: int, j: int|
        0 <= i <= j <= s.len() && u == s.subrange(i, j) && (forall|k: int| 0 <= k < i ==> is_unicode_whitespace(#[trigger] s[k]))
            && (forall|k: int| j <= k < s.len() ==> is_unicode_whitespace(#[trigger] s[k]))
            && (u.len() > 0 ==> !is_unicode_whitespace(u[0]) && !is_unicode_whitespace(u[u.len() - 1]));
    if t.len() > 0 && u.len() > 0 {
        assert(t[0] == s[i1]);
        assert(u[0] == s[i2]);
        if i1 < i2 {
            assert(is_unicode_whitespace(s[i1]));
        }
        if i2 < i1 {
            assert(is_unicode_whitespace(s[i2]));
        }
        assert(t[t.len() - 1] == s[j1 - 1]);
        assert(u[u.len() - 1] == s[j2 - 1]);
        if j1 < j2 {
            assert(is_unicode_whitespace(s[j1]));
            assert(u[j1 - i2] == s[j1]);
            assert(is_unicode_whitespace(s[j2 - 1]) || j2 - 1 == j1 || true);
            if j2 - 1 > j1 {
                assert(is_unicode_whitespace(s[j2 - 1]));
            }
        }
        if j2 < j1 {
            assert(is_unicode_whitespace(s[j2]));
            if j1 - 1 > j2 {
                assert(is_unicode_whitespace(s[j1 - 1]));
            }
        }
        assert(i1 == i2 && j1 == j2);
        assert(t =~= u);
    } else if t.len() > 0 {
        // u is empty: every character of s is whitespace.
        assert(t[0] == s[i1]);
        if i1 < i2 {
            assert(is_unicode_whitespace(s[i1]));
        } else {
            assert(i1 >= j2);
            assert(is_unicode_whitespace(s[i1]));
        }
    } else if u.len() > 0 {
        assert(u[0] == s[i2]);
        if i2 < i1 {
            assert(is_unicode_whitespace(s[i2]));
        } else {
            assert(i2 >= j1);
            assert(is_unicode_whitespace(s[i2]));
        }
    } else {
        assert(t =~= u);
    }
}

/// The image and policy numbers a trimmed line sets: it reads
/// `image=policy` (split at its first `=`) with two numbers.
pub open spec fn line_words(t: Seq<u8>) -> Option<(u32, u32)> {
    match index_from(t, 61, 0) {
        None => None,
        Some(k) => match (u32_text(t.subrange(0, k)), u32_text(t.subrange(k + 1, t.len() as int))) {
            (Some(image), Some(policy)) => Some((image, policy)),
            _ => None,
        },
    }
}

/// The bytes `str::trim` keeps of a line that is valid UTF-8.
pub open spec fn trimmed_bytes(seg: Seq<u8>) -> Seq<u8> {
    encode_utf8(trim_chars(decode_utf8(seg)))
}

/// The image and policy numbers a line of the file sets, if it is valid
/// UTF-8 and, once trimmed, reads `image=policy` with two numbers.
pub open spec fn line_effect(seg: Seq<u8>) -> Option<(u32, u32)> {
    if !valid_utf8(seg) {
        None
    } else {
        line_words(trimmed_bytes(seg))
    }
}

/// The table after one line: the policy it names, when it names an
/// application of the table.
pub open spec fn apply_line(q: Seq<PermissionPolicyState>, seg: Seq<u8>) -> Seq<PermissionPolicyState> {
    match line_effect(seg) {
        Some((image, policy)) => match policy_index_of(image_id_from_word(image as u64)) {
            Some(i) => q.update(i as int, permission_policy_state_from_word(policy as u64)),
            None => q,
        },
        None => q,
    }
}

/// The table after every line of `b`, in order.
pub open spec fn apply_text(q: Seq<PermissionPolicyState>, b: Seq<u8>) -> Seq<PermissionPolicyState>
    decreases b.len(),
{
    match index_from(b, 10, 0) {
        None => apply_line(q, b),
        Some(k) => {
            proof {
                lemma_index_from(b, 10, 0);
            }
            apply_text(apply_line(q, b.subrange(0, k)), b.subrange(k + 1, b.len() as int))
        },
    }
}

/// Index of the first byte `c` of `b`.
pub fn find_byte(b: &[u8], c: u8) -> (k: Option<usize>)
    ensures
        k == (match index_from(b@, c, 0) {
            Some(j) => Some(j as usize),
            None => None::<usize>,
        }),
{
    let mut i: usize = 0;
    while i < b.len()
        invariant
            i <= b@.len(),
            index_from(b@, c, 0) == index_from(b@, c, i as int),
        decreases b@.len() - i,
    {
        if b[i] == c {
            return Some(i);
        }
        i = i + 1;
    }
    None
}

/// Reads a trimmed line as `image=policy`.
pub fn parse_policy_line(t: &[u8]) -> (r: Option<(u32, u32)>)
    ensures
        r == line_words(t@),
{
    let n = t.len();
    let k = match find_byte(t, 61) {
        Some(k) => k,
        None => return None,
    };
    proof {
        lemma_index_from(t@, 61, 0);
    }
    let image = parse_u32_text(vstd::slice::slice_subrange(t, 0, k));
    let policy = parse_u32_text(vstd::slice::slice_subrange(t, k + 1, n));
    match (image, policy) {
        (Some(i), Some(p)) => Some((i, p)),
        _ => None,
    }
}

fn trim_line(seg: &[u8]) -> (t: Option<&[u8]>)
    ensures
        t is Some <==> valid_utf8(seg@),
        t matches Some(b) ==> b@ == trimmed_bytes(seg@),
{
    let s = match str_from_utf8(seg) {
        Some(s) => s,
        None => return None,
    };
    let t = str_trim(s);
    proof {
        vstd::utf8::encode_utf8_decode_utf8(s@);
        lemma_trim_unique(t@, s@);
    }
    Some(t.as_bytes())
}

fn apply_policy_line(policies: &mut [PermissionPolicyState; 8], seg: &[u8])
    ensures
        final(policies)@ == apply_line(old(policies)@, seg@),
{
    let t = match trim_line(seg) {
        Some(t) => t,
        None => return,
    };
    match parse_policy_line(t) {
        Some((image, policy)) => match policy_index(image_id_from_word(image as u64)) {
            Some(i) => {
                policies[i] = permission_policy_state_from_word(policy as u64);
            },
            None => {},
        },
        None => {},
    }
}

/// Applies the policy file `bytes` to the table: `InvalidArgument` (and no
/// change) when the file is not UTF-8; otherwise every line that reads,
/// once trimmed, `image=policy` with two numbers and names an application
/// of the table sets that application's policy, in file order. Other lines
/// are skipped.
pub fn load_policy_state(state: &mut SecurityState, bytes: &[u8]) -> (r: Result<()>)
    ensures
        !valid_utf8(bytes@) ==> r == Err::<(), Error>(Error::InvalidArgument) && *final(state) == *old(state),
        valid_utf8(bytes@) ==> r == Ok::<(), Error>(())
            && final(state).policies@ == apply_text(old(state).policies@, bytes@)
            && final(state).audits == old(state).audits
            && final(state).next_sequence == old(state).next_sequence,
{
    match str_from_utf8(bytes) {
        Some(_) => {},
        None => return Err(Error::InvalidArgument),
    }
    let mut policies = state.policies;
    let mut start: usize = 0;
    assert(bytes@.subrange(0, bytes@.len() as int) =~= bytes@);
    loop
        invariant_except_break
            start <= bytes@.len(),
            apply_text(old(state).policies@, bytes@) == apply_text(policies@, bytes@.subrange(start as int, bytes@.len() as int)),
        ensures
            apply_text(old(state).policies@, bytes@) == policies@,
        decreases bytes@.len() - start,
    {
        let rest = vstd::slice::slice_subrange(bytes, start, bytes.len());
        proof {
            lemma_index_from(rest@, 10, 0);
        }
        match find_byte(rest, 10) {
            None => {
                apply_policy_line(&mut policies, rest);
                break;
            },
            Some(k) => {
                let ghost before = policies@;
                apply_policy_line(&mut policies, vstd::slice::slice_subrange(rest, 0, k));
                proof {
                    assert(rest@.subrange(k + 1, rest@.len() as int) =~= bytes@.subrange(start + k + 1, bytes@.len() as int));
                }
                start = start + k + 1;
            },
        }
    }
    state.policies = policies;
    Ok(())
}

/// The file line of table entry `i`: the entry's image number, `=`, the
/// policy number, and a newline.
pub open spec fn policy_line(p: Seq<PermissionPolicyState>, i: int) -> Seq<u8> {
    decimal(policy_table(i)->0.image_id.spec_code() as nat) + seq![61u8] + decimal(p[i].spec_code() as nat) + seq![10u8]
}

/// The file lines of table entries `i` onwards.
pub open spec fn policy_lines(p: Seq<PermissionPolicyState>, i: int) -> Seq<u8>
    decreases 8 - i,
{
    if i >= 8 || i < 0 {
        Seq::empty()
    } else {
        policy_line(p, i) + policy_lines(p, i + 1)
    }
}

/// The policy file of the table: one line per entry, in table order.
pub fn persist_policy_state(state: &SecurityState) -> (text: Vec<u8>)
    ensures
        text@ == policy_lines(state.policies@, 0),
{
    let mut text: Vec<u8> = Vec::new();
    let mut i: usize = 0;
    while i < 8
        invariant
            i <= 8,
            text@ + policy_lines(state.policies@, i as int) == policy_lines(state.policies@, 0),
        decreases 8 - i,
    {
        let e = crate::security_service::policy_entry(i).unwrap();
        let ghost before = text@;
        push_decimal(&mut text, e.image_id.code() as u64);
        text.push(61);
        push_decimal(&mut text, state.policies[i].code() as u64);
        text.push(10);
        proof {
            assert(text@ == before + policy_line(state.policies@, i as int));
            assert(policy_lines(state.policies@, i as int) == policy_line(state.policies@, i as int) + policy_lines(state.policies@, i + 1));
            assert(text@ + policy_lines(state.policies@, i + 1) =~= before + policy_lines(state.policies@, i as int));
        }
        i = i + 1;
    }
    proof {
        assert(policy_lines(state.policies@, 8) == Seq::<u8>::empty());
        assert(text@ + Seq::<u8>::empty() =~= text@);
    }
    text
}

proof fn lemma_decimal(n: nat)
    ensures
        decimal(n).len() >= 1,
        all_digits(decimal(n)),
        digits_value(decimal(n)) == n,
    decreases n,
{
    if n >= 10 {
        lemma_decimal(n / 10);
        let d = decimal(n);
        assert(d == decimal(n / 10).push((48 + n % 10) as u8));
        assert(d.drop_last() =~= decimal(n / 10));
        assert forall|i: int| 0 <= i < d.len() implies is_digit(#[trigger] d[i]) by {
            if i < d.len() - 1 {
                assert(d[i] == decimal(n / 10)[i]);
            }
        }
        assert(d.last() == (48 + n % 10) as u8);
        assert((d.last() - 48) as nat == n % 10);
        vstd::arithmetic::div_mod::lemma_fundamental_div_mod(n as int, 10);
        assert(digits_value(d) == digits_value(d.drop_last()) * 10 + (d.last() - 48) as nat);
    } else {
        let d = decimal(n);
        assert(d.drop_last() =~= Seq::<u8>::empty());
        assert(digits_value(Seq::<u8>::empty()) == 0);
        assert(d.last() == (48 + n) as u8);
        assert(digits_value(d) == digits_value(d.drop_last()) * 10 + (d.last() - 48) as nat);
    }
}

proof fn lemma_u32_text_of_decimal(n: nat)
    requires
        n <= u32::MAX,
    ensures
        u32_text(decimal(n)) == Some(n as u32),
{
    lemma_decimal(n);
    assert(decimal(n)[0] != 43u8);
    assert(unsigned_digits(decimal(n)) == decimal(n));
}

proof fn lemma_index_at(s: Seq<u8>, c: u8, i: int, m: int)
    requires
        0 <= i <= m < s.len(),
        s[m] == c,
        forall|j: int| i <= j < m ==> s[j] != c,
    ensures
        index_from(s, c, i) == Some(m),
    decreases m - i,
{
    if i < m {
        lemma_index_at(s, c, i + 1, m);
    }
}

/// The text of line `i` without its newline.
pub open spec fn line_body(p: Seq<PermissionPolicyState>, i: int) -> Seq<u8> {
    decimal(policy_table(i)->0.image_id.spec_code() as nat) + seq![61u8] + decimal(p[i].spec_code() as nat)
}

proof fn lemma_trim_plain(c: Seq<char>)
    requires
        c.len() == 0 || (!is_unicode_whitespace(c[0]) && !is_unicode_whitespace(c[c.len() - 1])),
    ensures
        trim_chars(c) == c,
{
    assert(c.subrange(0, c.len() as int) =~= c);
    assert(is_trim_of(c, c));
    lemma_trim_unique(c, c);
}

proof fn lemma_line_body_effect(p: Seq<PermissionPolicyState>, i: int)
    requires
        0 <= i < 8,
        p.len() == 8,
    ensures
        line_effect(line_body(p, i)) == Some((policy_table(i)->0.image_id.spec_code(), p[i].spec_code())),
        forall|j: int| 0 <= j < line_body(p, i).len() ==> line_body(p, i)[j] != 10u8,
{
    let a = policy_table(i)->0.image_id.spec_code() as nat;
    let b = p[i].spec_code() as nat;
    let da = decimal(a);
    let db = decimal(b);
    let l = line_body(p, i);
    lemma_decimal(a);
    lemma_decimal(b);
    assert forall|j: int| 0 <= j < l.len() implies #[trigger] l[j] == 61u8 || is_digit(l[j]) by {
        if j < da.len() {
            assert(l[j] == da[j]);
        } else if j > da.len() {
            assert(l[j] == db[j - da.len() - 1]);
        }
    }
    assert forall|j: int| 0 <= j < l.len() implies l[j] != 10u8 by {
        assert(l[j] == 61u8 || is_digit(l[j]));
    }
    // The line is ASCII: it decodes to its bytes as characters.
    let c = Seq::new(l.len(), |j: int| l[j] as char);
    assert(vstd::utf8::is_ascii_chars(c)) by {
        assert forall|j: int| 0 <= j < c.len() implies '\0' <= #[trigger] c[j] <= '\u{7f}' by {
            assert(l[j] == 61u8 || is_digit(l[j]));
        }
    }
    vstd::utf8::is_ascii_chars_encode_utf8(c);
    assert(encode_utf8(c) =~= l);
    vstd::utf8::encode_utf8_valid_utf8(c);
    vstd::utf8::encode_utf8_decode_utf8(c);
    assert(l[0] == da[0]);
    assert(l[l.len() - 1] == db[db.len() - 1]);
    lemma_trim_plain(c);
    assert(trimmed_bytes(l) == l);
    // Split at the `=`.
    assert(l[da.len() as int] == 61u8);
    assert forall|j: int| 0 <= j < da.len() implies l[j] != 61u8 by {
        assert(l[j] == da[j]);
    }
    lemma_index_at(l, 61, 0, da.len() as int);
    assert(l.subrange(0, da.len() as int) =~= da);
    assert(l.subrange(da.len() as int + 1, l.len() as int) =~= db);
    lemma_u32_text_of_decimal(a);
    lemma_u32_text_of_decimal(b);
}

proof fn lemma_table_codes(p: Seq<PermissionPolicyState>, i: int)
    requires
        0 <= i < 8,
        p.len() == 8,
    ensures
        policy_index_of(image_id_from_word(policy_table(i)->0.image_id.spec_code() as u64)) == Some(i as usize),
        permission_policy_state_from_word(p[i].spec_code() as u64) == p[i],
{
    let image = policy_table(i)->0.image_id;
    crate::decode::lemma_service_image_id_code_injective(image);
    crate::decode::lemma_permission_policy_state_code_injective(p[i]);
    assert(image_id_from_word(image.spec_code() as u64) == image);
    assert(permission_policy_state_from_word(p[i].spec_code() as u64) == p[i]);
}

/// The table with the entries from `i` on taken from `p`.
pub open spec fn merged(q: Seq<PermissionPolicyState>, p: Seq<PermissionPolicyState>, i: int) -> Seq<PermissionPolicyState> {
    Seq::new(8, |j: int| if j >= i { p[j] } else { q[j] })
}

proof fn lemma_lines_from(q: Seq<PermissionPolicyState>, p: Seq<PermissionPolicyState>, i: int)
    requires
        0 <= i <= 8,
        q.len() == 8,
        p.len() == 8,
    ensures
        apply_text(q, policy_lines(p, i)) == merged(q, p, i),
    decreases 8 - i,
{
    if i == 8 {
        let e = Seq::<u8>::empty();
        assert(policy_lines(p, 8) == e);
        assert(index_from(e, 10, 0) is None);
        vstd::utf8::encode_utf8_decode_utf8(Seq::<char>::empty());
        assert(encode_utf8(Seq::<char>::empty()) =~= e) by {
            vstd::utf8::encode_utf8_valid_utf8(Seq::<char>::empty());
        }
        assert(decode_utf8(e) == Seq::<char>::empty());
        lemma_trim_plain(Seq::<char>::empty());
        assert(trimmed_bytes(e) =~= e);
        assert(index_from(e, 61, 0) is None);
        assert(apply_text(q, e) == q);
        assert(merged(q, p, 8) =~= q);
    } else {
        let l = line_body(p, i);
        let rest = policy_lines(p, i + 1);
        let text = policy_lines(p, i);
        assert(policy_line(p, i) =~= l + seq![10u8]);
        assert(text =~= l + seq![10u8] + rest);
        lemma_line_body_effect(p, i);
        lemma_table_codes(p, i);
        assert forall|j: int| 0 <= j < l.len() implies text[j] != 10u8 by {
            assert(text[j] == l[j]);
        }
        assert(text[l.len() as int] == 10u8);
        lemma_index_at(text, 10, 0, l.len() as int);
        assert(text.subrange(0, l.len() as int) =~= l);
        assert(text.subrange(l.len() as int + 1, text.len() as int) =~= rest);
        let q1 = q.update(i, p[i]);
        assert(apply_line(q, l) == q1);
        lemma_lines_from(q1, p, i + 1);
        assert(merged(q1, p, i + 1) =~= merged(q, p, i));
    }
}

/// Loading the file written for table `p` gives `p` back, whatever table
/// it is loaded into.
pub proof fn lemma_policy_file_round_trip(q: Seq<PermissionPolicyState>, p: Seq<PermissionPolicyState>)
    requires
        q.len() == 8,
        p.len() == 8,
    ensures
        apply_text(q, policy_lines(p, 0)) == p,
{
    lemma_lines_from(q, p, 0);
    assert(merged(q, p, 0) =~= p);
}

} // verus!
