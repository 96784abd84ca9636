//! The IPC envelope shared by every service protocol, and the little-endian
//! byte packing used to carry text inline in its words.
use vstd::prelude::*;

use crate::error::{Error, Result};

verus! {

/// Number of 64-bit payload words in one IPC envelope.
pub const IPC_MAX_WORDS: usize = 16;
/// Number of handle slots in one IPC envelope.
pub const IPC_MAX_HANDLES: usize = 8;
/// Flag word value that asks a receive to return `QueueEmpty` instead of blocking.
pub const IPC_FLAG_NONBLOCK: u32 = 1;

/// A kernel object handle as carried on the wire.
pub type Handle = u32;

/// The handle value that names no object.
pub const INVALID_HANDLE: Handle = 0xffff_ffff;

/// One IPC envelope: a tag, up to sixteen payload words and up to four
/// transferred handles.
#[derive(Clone, Copy, Debug, PartialEq, Eq)]
pub struct RawMessage {
    pub tag: u32,
    pub flags: u32,
    pub word_count: u32,
    pub words: [u64; 16],
    pub handle_count: u32,
    pub handles: [Handle; 8],
    pub handle_rights: [u64; 8],
}

/// One step of a request/reply exchange with a service: either the message
/// the caller must send next, or the final outcome of the exchange.
///
/// Every service call of this library is written as a step function: called
/// without a reply it yields the request to send; called with the reply that
/// came back it yields the decoded outcome (or, for paged listings, the next
/// request).
#[derive(Debug, PartialEq, Eq)]
pub enum Exchange<T> {
    Send(RawMessage),
    Done(Result<T>),
}

/// `m` is a freshly built request: the given tag, exactly the words `ws`,
/// zero padding after them, and no flags or handles.
pub open spec fn is_request(m: RawMessage, tag: u32, ws: Seq<u64>) -> bool {
    &&& m.tag == tag
    &&& m.flags == 0
    &&& m.word_count == ws.len()
    &&& ws.len() <= 16
    &&& forall|i: int| 0 <= i < ws.len() ==> m.words[i] == ws[i]
    &&& forall|i: int| ws.len() <= i < 16 ==> m.words[i] == 0
    &&& m.handle_count == 0
    &&& forall|i: int| 0 <= i < 8 ==> m.handles[i] == 0 && m.handle_rights[i] == 0
}

/// The step is the request described by `tag` and `ws`.
pub open spec fn sends<T>(step: Exchange<T>, tag: u32, ws: Seq<u64>) -> bool {
    step matches Exchange::Send(m) && is_request(m, tag, ws)
}

/// The reply carries the expected tag and at least `min` words.
pub open spec fn reply_shape(r: RawMessage, tag: u32, min: u32) -> bool {
    r.tag == tag && r.word_count >= min
}

/// The payload words of a message, as many as its word count says (capped
/// at the envelope size).
pub open spec fn payload(m: RawMessage) -> Seq<u64> {
    m.words@.subrange(0, if m.word_count <= 16 { m.word_count as int } else { 16 })
}

/// A reply, when there is one, respects the envelope limits.
pub open spec fn reply_wf(reply: Option<&RawMessage>) -> bool {
    reply matches Some(r) ==> r.wf()
}

impl RawMessage {
    /// The envelope limits: at most sixteen words and eight handles.
    pub open spec fn wf(self) -> bool {
        self.word_count <= 16 && self.handle_count <= 8
    }

    /// An envelope with the given tag and nothing else.
    pub fn empty(tag: u32) -> (m: RawMessage)
        ensures
            is_request(m, tag, Seq::empty()),
    {
        RawMessage {
            tag,
            flags: 0,
            word_count: 0,
            words: [0u64; 16],
            handle_count: 0,
            handles: [0u32; 8],
            handle_rights: [0u64; 8],
        }
    }
}

/// True when the reply carries `tag` and at least `min` words.
pub fn has_shape(r: &RawMessage, tag: u32, min: u32) -> (b: bool)
    ensures
        b == reply_shape(*r, tag, min),
{
    r.tag == tag && r.word_count >= min
}

/// A request with one payload word.
pub fn request1(tag: u32, w0: u64) -> (m: RawMessage)
    ensures
        is_request(m, tag, seq![w0]),
{
    let mut m = RawMessage::empty(tag);
    m.word_count = 1;
    m.words[0] = w0;
    m
}

/// A request with two payload words.
pub fn request2(tag: u32, w0: u64, w1: u64) -> (m: RawMessage)
    ensures
        is_request(m, tag, seq![w0, w1]),
{
    let mut m = RawMessage::empty(tag);
    m.word_count = 2;
    m.words[0] = w0;
    m.words[1] = w1;
    m
}

/// A request with three payload words.
pub fn request3(tag: u32, w0: u64, w1: u64, w2: u64) -> (m: RawMessage)
    ensures
        is_request(m, tag, seq![w0, w1, w2]),
{
    let mut m = RawMessage::empty(tag);
    m.word_count = 3;
    m.words[0] = w0;
    m.words[1] = w1;
    m.words[2] = w2;
    m
}

/// A request with four payload words.
pub fn request4(tag: u32, w0: u64, w1: u64, w2: u64, w3: u64) -> (m: RawMessage)
    ensures
        is_request(m, tag, seq![w0, w1, w2, w3]),
{
    let mut m = RawMessage::empty(tag);
    m.word_count = 4;
    m.words[0] = w0;
    m.words[1] = w1;
    m.words[2] = w2;
    m.words[3] = w3;
    m
}

/// A request with five payload words.
pub fn request5(tag: u32, w0: u64, w1: u64, w2: u64, w3: u64, w4: u64) -> (m: RawMessage)
    ensures
        is_request(m, tag, seq![w0, w1, w2, w3, w4]),
{
    let mut m = RawMessage::empty(tag);
    m.word_count = 5;
    m.words[0] = w0;
    m.words[1] = w1;
    m.words[2] = w2;
    m.words[3] = w3;
    m.words[4] = w4;
    m
}

// ---------------------------------------------------------------------------
// Little-endian byte packing
// ---------------------------------------------------------------------------

/// 256 to the power `n`.
pub open spec fn pow256(n: nat) -> nat
    decreases n,
{
    if n == 0 {
        1
    } else {
        256 * pow256((n - 1) as nat)
    }
}

/// The little-endian value of a byte string: byte 0 is the least significant.
pub open spec fn le_value(bs: Seq<u8>) -> nat
    decreases bs.len(),
{
    if bs.len() == 0 {
        0
    } else {
        bs[0] as nat + 256 * le_value(bs.drop_first())
    }
}

/// Byte `k` (little-endian) of a value.
pub open spec fn byte_of(w: nat, k: nat) -> u8
    decreases k,
{
    if k == 0 {
        (w % 256) as u8
    } else {
        byte_of(w / 256, (k - 1) as nat)
    }
}

/// Number of words needed to carry `n` bytes.
pub open spec fn words_for(n: nat) -> nat {
    (n + 7) / 8
}

/// Bytes `8 * j .. 8 * j + 8` of `bs`, cut at its end.
pub open spec fn chunk(bs: Seq<u8>, j: int) -> Seq<u8> {
    bs.subrange(8 * j, if 8 * j + 8 <= bs.len() { 8 * j + 8 } else { bs.len() as int })
}

/// The words that carry `bs`: word `j` holds bytes `8j .. 8j+8`, least
/// significant first, zero-padded.
pub open spec fn packed_words(bs: Seq<u8>) -> Seq<u64> {
    Seq::new(words_for(bs.len()), |j: int| le_value(chunk(bs, j)) as u64)
}

/// Byte `i` of the byte stream carried by `words`.
pub open spec fn stream_byte(words: Seq<u64>, i: int) -> u8 {
    byte_of(words[i / 8] as nat, (i % 8) as nat)
}

/// The first `len` bytes of the byte stream carried by `words`.
pub open spec fn unpacked(words: Seq<u64>, len: nat) -> Seq<u8> {
    Seq::new(len, |i: int| stream_byte(words, i))
}

pub proof fn lemma_pow256_small()
    ensures
        pow256(0) == 1,
        pow256(1) == 256,
        pow256(2) == 0x1_0000,
        pow256(3) == 0x100_0000,
        pow256(4) == 0x1_0000_0000,
        pow256(5) == 0x100_0000_0000,
        pow256(6) == 0x1_0000_0000_0000,
        pow256(7) == 0x100_0000_0000_0000,
        pow256(8) == 0x1_0000_0000_0000_0000,
{
    reveal_with_fuel(pow256, 9);
}

/// A byte string of `n` bytes has a little-endian value below `256^n`.
pub proof fn lemma_le_value_bound(bs: Seq<u8>)
    ensures
        le_value(bs) < pow256(bs.len()),
    decreases bs.len(),
{
    if bs.len() > 0 {
        lemma_le_value_bound(bs.drop_first());
    }
}

/// Reading byte `k` of the little-endian value of `bs` gives `bs[k]`, and
/// zero past its end.
pub proof fn lemma_byte_of_le_value(bs: Seq<u8>, k: nat)
    ensures
        byte_of(le_value(bs), k) == if k < bs.len() { bs[k as int] } else { 0u8 },
    decreases k,
{
    if bs.len() == 0 {
        lemma_byte_of_zero(k);
    } else {
        let rest = le_value(bs.drop_first());
        let v = le_value(bs);
        assert(v == bs[0] as nat + 256 * rest);
        assert(v % 256 == bs[0] as nat) by (nonlinear_arith)
            requires
                v == bs[0] as nat + 256 * rest,
                bs[0] < 256,
        ;
        assert(v / 256 == rest) by (nonlinear_arith)
            requires
                v == bs[0] as nat + 256 * rest,
                bs[0] < 256,
        ;
        if k > 0 {
            lemma_byte_of_le_value(bs.drop_first(), (k - 1) as nat);
        }
    }
}

pub proof fn lemma_byte_of_zero(k: nat)
    ensures
        byte_of(0, k) == 0,
    decreases k,
{
    if k > 0 {
        lemma_byte_of_zero((k - 1) as nat);
    }
}

/// Unpacking the words that carry a byte string gives the string back.
pub proof fn lemma_unpack_packed(bs: Seq<u8>)
    ensures
        unpacked(packed_words(bs), bs.len()) =~= bs,
{
    assert forall|i: int| 0 <= i < bs.len() implies stream_byte(packed_words(bs), i) == bs[i] by {
        let j = i / 8;
        let k = i % 8;
        assert(0 <= j < words_for(bs.len()));
        let c = chunk(bs, j);
        lemma_le_value_bound(c);
        lemma_pow256_small();
        assert(c.len() <= 8);
        assert(pow256(c.len()) <= pow256(8)) by {
            lemma_pow256_monotone(c.len(), 8);
        }
        assert(packed_words(bs)[j] == le_value(c) as u64);
        lemma_byte_of_le_value(c, k as nat);
        assert(c[k] == bs[i]);
    }
}

pub proof fn lemma_pow256_monotone(a: nat, b: nat)
    requires
        a <= b,
    ensures
        pow256(a) <= pow256(b),
    decreases b,
{
    if a < b {
        lemma_pow256_monotone(a, (b - 1) as nat);
    }
}

/// The little-endian word carried by bytes `start .. start + 8` of `bytes`
/// (cut at the end of `bytes`).
pub fn pack_word(bytes: &[u8], start: usize) -> (w: u64)
    requires
        start < bytes@.len(),
    ensures
        w == le_value(bytes@.subrange(
            start as int,
            if start + 8 <= bytes@.len() { start + 8 } else { bytes@.len() as int },
        )),
{
    let end: usize = if bytes.len() - start >= 8 {
        start + 8
    } else {
        bytes.len()
    };
    let ghost s = bytes@.subrange(start as int, end as int);
    let mut w: u64 = 0;
    let mut k: usize = end;
    proof {
        assert(s.subrange(s.len() as int, s.len() as int) =~= Seq::<u8>::empty());
        lemma_pow256_small();
    }
    while k > start
        invariant
            start <= k <= end,
            end <= bytes@.len(),
            end - start <= 8,
            s == bytes@.subrange(start as int, end as int),
            w == le_value(s.subrange(k - start, end - start)),
        decreases k,
    {
        k = k - 1;
        proof {
            let tail = s.subrange(k - start + 1, end - start);
            let longer = s.subrange(k - start, end - start);
            assert(longer.drop_first() =~= tail);
            assert(longer[0] == bytes@[k as int]);
            lemma_le_value_bound(tail);
            lemma_pow256_small();
            lemma_pow256_monotone(tail.len(), 7);
        }
        w = (bytes[k] as u64) + 256 * w;
    }
    proof {
        assert(s.subrange(0, end - start) =~= s);
    }
    w
}

/// Byte `k` of a word.
pub fn word_byte(w: u64, k: usize) -> (b: u8)
    requires
        k < 8,
    ensures
        b == byte_of(w as nat, k as nat),
{
    let mut cur: u64 = w;
    let mut i: usize = 0;
    while i < k
        invariant
            i <= k,
            k < 8,
            byte_of(w as nat, k as nat) == byte_of(cur as nat, (k - i) as nat),
        decreases k - i,
    {
        cur = cur / 256;
        i = i + 1;
    }
    (cur % 256) as u8
}

/// Writes the words that carry `bytes` into `words[start..]` and returns how
/// many words that took.
pub fn pack_into(words: &mut [u64; 16], start: usize, bytes: &[u8]) -> (n: u32)
    requires
        start + words_for(bytes@.len()) <= 16,
    ensures
        n == words_for(bytes@.len()),
        forall|i: int| 0 <= i < start ==> final(words)[i] == old(words)[i],
        forall|i: int|
            start + words_for(bytes@.len()) <= i < 16 ==> final(words)[i] == old(words)[i],
        forall|j: int|
            0 <= j < n ==> final(words)[start + j] == packed_words(bytes@)[j],
{
    let count: usize = (bytes.len() + 7) / 8;
    let mut j: usize = 0;
    while j < count
        invariant
            count == words_for(bytes@.len()),
            start + count <= 16,
            j <= count,
            forall|i: int| 0 <= i < start ==> words[i] == old(words)[i],
            forall|i: int| start + j <= i < 16 ==> words[i] == old(words)[i],
            forall|t: int| 0 <= t < j ==> words[start + t] == packed_words(bytes@)[t],
        decreases count - j,
    {
        let w = pack_word(bytes, 8 * j);
        words[start + j] = w;
        j = j + 1;
    }
    count as u32
}

/// Packs `bytes` into `words`, least significant byte first, and returns the
/// number of words used; `BufferTooSmall` when `words` cannot hold them.
pub fn pack_bytes(bytes: &[u8], words: &mut [u64]) -> (r: Result<u32>)
    ensures
        words_for(bytes@.len()) > old(words)@.len() ==> r == Err::<u32, Error>(Error::BufferTooSmall)
            && final(words)@ == old(words)@,
        words_for(bytes@.len()) <= old(words)@.len() ==> {
            &&& r == Ok::<u32, Error>(words_for(bytes@.len()) as u32)
            &&& final(words)@.len() == old(words)@.len()
            &&& forall|j: int|
                0 <= j < words_for(bytes@.len()) ==> final(words)@[j] == packed_words(bytes@)[j]
            &&& forall|j: int|
                words_for(bytes@.len()) <= j < old(words)@.len() ==> final(words)@[j]
                    == old(words)@[j]
        },
{
    let count: usize = bytes.len() / 8 + if bytes.len() % 8 == 0 { 0 } else { 1 };
    assert(count == words_for(bytes@.len()));
    if count > words.len() {
        return Err(Error::BufferTooSmall);
    }
    let mut j: usize = 0;
    while j < count
        invariant
            count == words_for(bytes@.len()),
            count <= words@.len(),
            words@.len() == old(words)@.len(),
            j <= count,
            forall|t: int| j <= t < words@.len() ==> words@[t] == old(words)@[t],
            forall|t: int| 0 <= t < j ==> words@[t] == packed_words(bytes@)[t],
        decreases count - j,
    {
        assert(8 * j < bytes.len());
        let w = pack_word(bytes, 8 * j);
        words[j] = w;
        j = j + 1;
    }
    Ok(count as u32)
}

/// Copies the first `len` bytes of the stream carried by `words` into
/// `buffer`; `BufferTooSmall` when `buffer` is shorter than `len` or `words`
/// carry fewer than `len` bytes.
pub fn unpack_bytes(words: &[u64], len: usize, buffer: &mut [u8]) -> (r: Result<()>)
    ensures
        (len > old(buffer)@.len() || words_for(len as nat) > words@.len()) ==> r == Err::<(), Error>(Error::BufferTooSmall)
            && final(buffer)@ == old(buffer)@,
        !(len > old(buffer)@.len() || words_for(len as nat) > words@.len()) ==> {
            &&& r == Ok::<(), Error>(())
            &&& final(buffer)@.len() == old(buffer)@.len()
            &&& final(buffer)@.subrange(0, len as int) == unpacked(words@, len as nat)
            &&& final(buffer)@.subrange(len as int, old(buffer)@.len() as int)
                == old(buffer)@.subrange(len as int, old(buffer)@.len() as int)
        },
{
    if len > buffer.len() || len / 8 + (if len % 8 == 0 { 0 } else { 1 }) > words.len() {
        return Err(Error::BufferTooSmall);
    }
    let mut i: usize = 0;
    while i < len
        invariant
            len <= buffer@.len(),
            buffer@.len() == old(buffer)@.len(),
            words_for(len as nat) <= words@.len(),
            i <= len,
            forall|t: int| 0 <= t < i ==> buffer@[t] == stream_byte(words@, t),
            forall|t: int| i <= t < buffer@.len() ==> buffer@[t] == old(buffer)@[t],
        decreases len - i,
    {
        let b = word_byte(words[i / 8], i % 8);
        buffer[i] = b;
        i = i + 1;
    }
    proof {
        assert(buffer@.subrange(0, len as int) =~= unpacked(words@, len as nat));
        assert(buffer@.subrange(len as int, old(buffer)@.len() as int) =~= old(buffer)@.subrange(
            len as int,
            old(buffer)@.len() as int,
        ));
    }
    Ok(())
}

/// Copies bytes `from .. from + len` of the stream carried by
/// `m.words[start .. m.word_count]` into the front of `buffer`.
pub fn copy_stream(m: &RawMessage, start: usize, from: usize, len: usize, buffer: &mut [u8])
    requires
        m.wf(),
        start <= m.word_count,
        len <= old(buffer)@.len(),
        words_for((from + len) as nat) <= m.word_count - start,
    ensures
        final(buffer)@.len() == old(buffer)@.len(),
        final(buffer)@.subrange(0, len as int) == unpacked(payload(*m).subrange(start as int, m.word_count as int), (from + len) as nat).subrange(from as int, (from + len) as int),
        final(buffer)@.subrange(len as int, old(buffer)@.len() as int) == old(buffer)@.subrange(len as int, old(buffer)@.len() as int),
{
    let ghost before = buffer@;
    let ghost ws = payload(*m).subrange(start as int, m.word_count as int);
    let mut i: usize = 0;
    while i < len
        invariant
            m.wf(),
            start <= m.word_count,
            ws == payload(*m).subrange(start as int, m.word_count as int),
            len <= buffer@.len(),
            buffer@.len() == before.len(),
            words_for((from + len) as nat) <= m.word_count - start,
            i <= len,
            forall|t: int| 0 <= t < i ==> buffer@[t] == stream_byte(ws, from + t),
            forall|t: int| i <= t < buffer@.len() ==> buffer@[t] == before[t],
        decreases len - i,
    {
        let pos = from + i;
        let b = word_byte(m.words[start + pos / 8], pos % 8);
        proof {
            assert(ws[(pos / 8) as int] == m.words[start + pos / 8]);
        }
        buffer[i] = b;
        i = i + 1;
    }
    proof {
        assert(buffer@.subrange(0, len as int) =~= unpacked(ws, (from + len) as nat).subrange(from as int, (from + len) as int));
        assert(buffer@.subrange(len as int, before.len() as int) =~= before.subrange(len as int, before.len() as int));
    }
}

/// The result of unpacking `len` bytes from `m.words[start..]` into a buffer
/// of `cap` bytes: `BufferTooSmall` when the buffer or the words are short.
pub open spec fn unpack_outcome(m: RawMessage, start: int, len: nat, cap: nat) -> Result<()> {
    if len > cap || words_for(len) > m.word_count - start {
        Err(Error::BufferTooSmall)
    } else {
        Ok(())
    }
}

/// The first `len` bytes of the stream carried by `m.words[start .. m.word_count]`.
pub open spec fn message_bytes(m: RawMessage, start: int, len: nat) -> Seq<u8> {
    unpacked(payload(m).subrange(start, m.word_count as int), len)
}

/// Copies the first `len` bytes of the stream carried by
/// `m.words[start .. m.word_count]` into `buffer`.
pub fn unpack_from(m: &RawMessage, start: usize, len: usize, buffer: &mut [u8]) -> (r: Result<()>)
    requires
        m.wf(),
        start <= m.word_count,
    ensures
        r == unpack_outcome(*m, start as int, len as nat, old(buffer)@.len()),
        final(buffer)@.len() == old(buffer)@.len(),
        r is Ok ==> final(buffer)@.subrange(0, len as int) == message_bytes(*m, start as int, len as nat),
        r is Ok ==> final(buffer)@.subrange(len as int, old(buffer)@.len() as int) == old(
            buffer,
        )@.subrange(len as int, old(buffer)@.len() as int),
        r is Err ==> final(buffer)@ == old(buffer)@,
{
    let avail: usize = (m.word_count - start as u32) as usize;
    if len > buffer.len() || len / 8 + (if len % 8 == 0 { 0 } else { 1 }) > avail {
        return Err(Error::BufferTooSmall);
    }
    copy_stream(m, start, 0, len, buffer);
    proof {
        let ws = payload(*m).subrange(start as int, m.word_count as int);
        assert(unpacked(ws, len as nat).subrange(0, len as int) =~= unpacked(ws, len as nat));
    }
    Ok(())
}


/// `after` is `before` with its first `n` bytes replaced by the first `n`
/// bytes of the stream carried by `r.words[start..]`.
pub open spec fn bytes_written(before: Seq<u8>, after: Seq<u8>, r: RawMessage, start: int, n: nat) -> bool {
    &&& after.len() == before.len()
    &&& after.subrange(0, n as int) == message_bytes(r, start, n)
    &&& after.subrange(n as int, before.len() as int) == before.subrange(n as int, before.len() as int)
}

/// Bytes `from .. from + len` of the byte stream carried by
/// `m.words[start .. m.word_count]`.
pub open spec fn segment(m: RawMessage, start: int, from: nat, len: nat) -> Seq<u8> {
    unpacked(payload(m).subrange(start, m.word_count as int), from + len).subrange(from as int, (from + len) as int)
}

/// `after` is `before` with its first `len` bytes replaced by the segment
/// `from .. from + len` of the stream carried by `m.words[start..]`.
pub open spec fn segment_written(before: Seq<u8>, after: Seq<u8>, m: RawMessage, start: int, from: nat, len: nat) -> bool {
    &&& after.len() == before.len()
    &&& after.subrange(0, len as int) == segment(m, start, from, len)
    &&& after.subrange(len as int, before.len() as int) == before.subrange(len as int, before.len() as int)
}

/// A request carrying the header words `head` followed by the words that
/// pack `bytes`.
pub fn request_with_bytes(tag: u32, head: &[u64], bytes: &[u8]) -> (m: RawMessage)
    requires
        head@.len() + words_for(bytes@.len()) <= 16,
    ensures
        is_request(m, tag, head@ + packed_words(bytes@)),
{
    let mut m = RawMessage::empty(tag);
    let mut i: usize = 0;
    while i < head.len()
        invariant
            head@.len() <= 16,
            i <= head@.len(),
            is_request(m, tag, Seq::<u64>::empty()) || i > 0,
            m.tag == tag,
            m.flags == 0,
            m.handle_count == 0,
            forall|k: int| 0 <= k < 8 ==> m.handles[k] == 0 && m.handle_rights[k] == 0,
            forall|k: int| 0 <= k < i ==> m.words[k] == head@[k],
            forall|k: int| i <= k < 16 ==> m.words[k] == 0,
        decreases head@.len() - i,
    {
        m.words[i] = head[i];
        i = i + 1;
    }
    let n = pack_into(&mut m.words, head.len(), bytes);
    m.word_count = head.len() as u32 + n;
    proof {
        let ws = head@ + packed_words(bytes@);
        assert forall|k: int| 0 <= k < ws.len() implies m.words[k] == ws[k] by {
            if k >= head@.len() {
                assert(m.words[head@.len() + (k - head@.len())] == packed_words(bytes@)[k - head@.len()]);
            }
        }
    }
    m
}

/// A request carrying the header words `head`, then the words that pack
/// `first`, then the words that pack `second`.
pub fn request_with_two(tag: u32, head: &[u64], first: &[u8], second: &[u8]) -> (m: RawMessage)
    requires
        head@.len() + words_for(first@.len()) + words_for(second@.len()) <= 16,
    ensures
        is_request(m, tag, head@ + packed_words(first@) + packed_words(second@)),
{
    let mut m = request_with_bytes(tag, head, first);
    let ghost ws = head@ + packed_words(first@);
    let start = m.word_count as usize;
    let n = pack_into(&mut m.words, start, second);
    m.word_count = m.word_count + n;
    proof {
        let all = ws + packed_words(second@);
        assert forall|k: int| 0 <= k < all.len() implies m.words[k] == all[k] by {
            if k >= ws.len() {
                assert(m.words[start + (k - start)] == packed_words(second@)[k - start]);
            }
        }
    }
    m
}

/// A request whose words are exactly `ws`.
pub fn request_words(tag: u32, ws: &[u64]) -> (m: RawMessage)
    requires
        ws@.len() <= 16,
    ensures
        is_request(m, tag, ws@),
{
    let none: [u8; 0] = [];
    let m = request_with_bytes(tag, ws, none.as_slice());
    assert(ws@ + packed_words(none@) =~= ws@);
    m
}


/// `new` is `old` with positions `from .. from + count` replaced by
/// `f(0) .. f(count - 1)`.
pub open spec fn written<T>(old: Seq<T>, new: Seq<T>, from: int, count: int, f: spec_fn(int) -> T) -> bool {
    &&& new.len() == old.len()
    &&& forall|i: int| from <= i < from + count ==> new[i] == f(i - from)
    &&& forall|i: int| 0 <= i < old.len() && !(from <= i < from + count) ==> new[i] == old[i]
}

/// Number of entries of `stride` words that a table reply carries after its
/// `head` words, as word `at` states it: `BufferTooSmall` when that exceeds
/// the caller's room `cap` or disagrees with the reply's word count.
pub open spec fn table_count(r: RawMessage, at: int, head: nat, stride: nat, cap: nat) -> Result<nat> {
    let count = (r.words[at] as usize) as nat;
    if count > cap || r.word_count != head + count * stride {
        Err(Error::BufferTooSmall)
    } else {
        Ok(count)
    }
}

/// Reads and checks the entry count of a table reply (see `table_count`).
pub fn table_count_of(r: &RawMessage, at: usize, head: usize, stride: usize, cap: usize) -> (res: Result<usize>)
    requires
        r.wf(),
        at < 16,
        head <= 16,
        1 <= stride <= 16,
    ensures
        res == (match table_count(*r, at as int, head as nat, stride as nat, cap as nat) {
            Ok(c) => Ok::<usize, Error>(c as usize),
            Err(e) => Err::<usize, Error>(e),
        }),
        res matches Ok(c) ==> head + c * stride == r.word_count && c <= cap && c <= 16,
{
    let count = r.words[at] as usize;
    if count > cap {
        return Err(Error::BufferTooSmall);
    }
    if count > 16 {
        proof {
            assert(count * stride >= count) by (nonlinear_arith)
                requires
                    stride >= 1,
            ;
        }
        return Err(Error::BufferTooSmall);
    }
    proof {
        assert(count * stride <= 16 * 16) by (nonlinear_arith)
            requires
                count <= 16,
                stride <= 16,
        ;
    }
    if r.word_count as usize != head + count * stride {
        return Err(Error::BufferTooSmall);
    }
    Ok(count)
}

/// A count outcome as the `usize` a call returns.
pub open spec fn count_usize(r: Result<nat>) -> Result<usize> {
    match r {
        Ok(c) => Ok(c as usize),
        Err(e) => Err(e),
    }
}

/// Paging state of a listing that the service returns in several replies:
/// the cursor of the next page and the number of entries filled so far.
#[derive(Clone, Copy, Debug, PartialEq, Eq)]
pub struct PageCursor {
    pub start: usize,
    pub filled: usize,
}

/// Number of entries a listing page carries, when it fits both the caller's
/// remaining room and the reply's word count.
pub open spec fn page_count(r: RawMessage, filled: nat, cap: nat, stride: nat) -> Result<nat> {
    let count = (r.words[1] as usize) as nat;
    if filled + count > cap || r.word_count != 3 + count * stride {
        Err(Error::BufferTooSmall)
    } else {
        Ok(count)
    }
}

/// Reads the entry count of a listing page, as `page_count` states it.
pub fn page_count_of(r: &RawMessage, filled: usize, cap: usize, stride: usize) -> (res: Result<usize>)
    requires
        r.wf(),
        filled <= cap,
        1 <= stride <= 16,
    ensures
        res == (match page_count(*r, filled as nat, cap as nat, stride as nat) {
            Ok(c) => Ok::<usize, Error>(c as usize),
            Err(e) => Err::<usize, Error>(e),
        }),
        res matches Ok(c) ==> 3 + c * stride == r.word_count && filled + c <= cap,
{
    let count = r.words[1] as usize;
    if count > cap - filled {
        return Err(Error::BufferTooSmall);
    }
    if count > 16 {
        proof {
            assert(count * stride >= count) by (nonlinear_arith)
                requires
                    stride >= 1,
            ;
        }
        return Err(Error::BufferTooSmall);
    }
    proof {
        assert(count * stride <= 16 * 16) by (nonlinear_arith)
            requires
                count <= 16,
                stride <= 16,
        ;
    }
    if r.word_count as usize != 3 + count * stride {
        return Err(Error::BufferTooSmall);
    }
    Ok(count)
}

} // verus!
