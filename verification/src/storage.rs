//! Storage-service protocol: search queries and hits, blobs, listings,
//! directories, mounts and path traversal.
use vstd::prelude::*;
use vstd::string::StringSliceAdditionalSpecFns;

use crate::abi::{StorageEntryKind, StorageMountKind, StorageStatus, StorageTag};
use crate::error::{Error, Result};
use crate::message::{
    bytes_written, has_shape, is_request, message_bytes, packed_words, reply_shape, reply_wf, request1, request2,
    request_with_bytes, request_with_two, sends, unpack_from, unpack_outcome, words_for, Exchange,
    Handle, RawMessage, IPC_MAX_WORDS,
};
use crate::text::str_from_utf8;

verus! {

/// Most tokens a search query keeps.
pub const STORAGE_SEARCH_QUERY_TOKEN_MAX: usize = 3;
/// Most bytes a search query keeps of one token.
pub const STORAGE_SEARCH_QUERY_TOKEN_LEN_MAX: usize = 24;
/// Longest compacted search query: three full tokens and two spaces.
pub const STORAGE_SEARCH_QUERY_BYTES_MAX: usize = STORAGE_SEARCH_QUERY_TOKEN_MAX * (STORAGE_SEARCH_QUERY_TOKEN_LEN_MAX + 1) - 1;
/// Tag of a search request.
pub const STORAGE_SEARCH_REQUEST_TAG: u32 = 0x521;
/// Tag of a search reply.
pub const STORAGE_SEARCH_REPLY_TAG: u32 = 0x522;

/// A space or a NUL byte separates the tokens of a search query.
pub open spec fn is_separator(b: u8) -> bool {
    b == 32 || b == 0
}

/// The tokens of `s`: its maximal runs of bytes that are not separators, in
/// order.
pub open spec fn tokens_of(s: Seq<u8>) -> Seq<Seq<u8>>
    decreases s.len(),
{
    if s.len() == 0 {
        Seq::empty()
    } else {
        let t = tokens_of(s.drop_last());
        let b = s.last();
        if is_separator(b) {
            t
        } else if s.len() >= 2 && !is_separator(s[s.len() - 2]) {
            t.update(t.len() - 1, t.last().push(b))
        } else {
            t.push(seq![b])
        }
    }
}

/// A token cut to its first `STORAGE_SEARCH_QUERY_TOKEN_LEN_MAX` bytes.
pub open spec fn cut_token(t: Seq<u8>) -> Seq<u8> {
    if t.len() <= STORAGE_SEARCH_QUERY_TOKEN_LEN_MAX { t } else { t.take(STORAGE_SEARCH_QUERY_TOKEN_LEN_MAX as int) }
}

/// Tokens joined with single spaces.
pub open spec fn joined(ts: Seq<Seq<u8>>) -> Seq<u8>
    decreases ts.len(),
{
    if ts.len() == 0 {
        Seq::empty()
    } else if ts.len() == 1 {
        ts[0]
    } else {
        joined(ts.drop_last()) + seq![32u8] + ts.last()
    }
}

/// The tokens cut to the per-token limit.
pub open spec fn cut_tokens(ts: Seq<Seq<u8>>) -> Seq<Seq<u8>> {
    ts.map_values(|t: Seq<u8>| cut_token(t))
}

/// The compacted form of a search query: its first three tokens, each cut
/// to 24 bytes, joined with single spaces.
pub open spec fn compact_query(s: Seq<u8>) -> Seq<u8> {
    joined(cut_tokens(tokens_of(s).take(if tokens_of(s).len() <= 3 { tokens_of(s).len() as int } else { 3 })))
}

/// Every token is non-empty, and the last one is open exactly when `s` ends
/// with a byte that is not a separator.
pub proof fn lemma_tokens_shape(s: Seq<u8>)
    ensures
        forall|k: int| 0 <= k < tokens_of(s).len() ==> #[trigger] tokens_of(s)[k].len() >= 1,
        s.len() > 0 && !is_separator(s.last()) ==> tokens_of(s).len() >= 1,
    decreases s.len(),
{
    if s.len() > 0 {
        lemma_tokens_shape(s.drop_last());
        let t = tokens_of(s.drop_last());
        if s.len() >= 2 && !is_separator(s[s.len() - 2]) {
            assert(s.drop_last().last() == s[s.len() - 2]);
        }
    }
}

/// Extending a byte string that ends with a separator keeps its tokens as a
/// prefix of the longer string's tokens; any byte that is not a separator
/// after that point starts a further token.
pub proof fn lemma_tokens_extend(p: Seq<u8>, q: Seq<u8>)
    requires
        p.len() > 0 && is_separator(p.last()),
        p.len() <= q.len(),
        q.subrange(0, p.len() as int) == p,
    ensures
        tokens_of(q).len() >= tokens_of(p).len(),
        tokens_of(q).take(tokens_of(p).len() as int) == tokens_of(p),
        q.len() > p.len() && !is_separator(q.last()) ==> tokens_of(q).len() > tokens_of(p).len(),
    decreases q.len(),
{
    if q.len() == p.len() {
        assert(q == p);
        assert(tokens_of(q).take(tokens_of(p).len() as int) =~= tokens_of(p));
    } else {
        let q0 = q.drop_last();
        assert(q0.subrange(0, p.len() as int) =~= p);
        lemma_tokens_extend(p, q0);
        let t = tokens_of(q0);
        let n = tokens_of(p).len();
        if is_separator(q.last()) {
        } else if q.len() >= 2 && !is_separator(q[q.len() - 2]) {
            assert(q0.last() == q[q.len() - 2]);
            if q0.len() == p.len() {
                assert(q0 == p);
            }
            assert(t.len() > n);
            assert(tokens_of(q).take(n as int) =~= t.take(n as int));
        } else {
            assert(tokens_of(q).take(n as int) =~= t.take(n as int));
        }
    }
}

/// Joined tokens of at most 24 bytes each, `n` of them, take at most
/// `25 * n - 1` bytes, and none at all when there are no tokens.
pub proof fn lemma_joined_len(ts: Seq<Seq<u8>>)
    requires
        forall|k: int| 0 <= k < ts.len() ==> 1 <= #[trigger] ts[k].len() <= 24,
    ensures
        ts.len() == 0 <==> joined(ts).len() == 0,
        ts.len() > 0 ==> joined(ts).len() <= 25 * ts.len() - 1,
    decreases ts.len(),
{
    if ts.len() > 1 {
        lemma_joined_len(ts.drop_last());
    }
}

/// The byte before the end of `prev`, if any, belongs to a token.
pub open spec fn in_token_before(prev: Seq<u8>) -> bool {
    prev.len() > 0 && !is_separator(prev.last())
}

/// A search query as the storage service takes it: up to three tokens of up
/// to 24 bytes each, separated by single spaces, never empty.
#[derive(Clone, Copy, Debug, PartialEq, Eq)]
pub struct StorageSearchQuery {
    bytes: [u8; 74],
    len: usize,
}

impl StorageSearchQuery {
    /// The query's bytes.
    pub closed spec fn view_bytes(self) -> Seq<u8> {
        self.bytes@.take(self.len as int)
    }

    /// The query's length never exceeds its room.
    #[verifier::type_invariant]
    closed spec fn wf(self) -> bool {
        self.len <= 74
    }

    /// The compacted query of a string (see `from_bytes`).
    pub fn new(query: &str) -> (q: Option<Self>)
        ensures
            compact_query(query.spec_bytes()).len() == 0 ==> q is None,
            compact_query(query.spec_bytes()).len() > 0 ==> (q matches Some(v) && v.view_bytes() == compact_query(query.spec_bytes())),
    {
        Self::from_bytes(query.as_bytes())
    }

    /// Compacts `bytes` into a query: its first three tokens (runs of bytes
    /// other than space and NUL), each cut to 24 bytes, joined with single
    /// spaces; `None` when `bytes` holds no token.
    pub fn from_bytes(bytes: &[u8]) -> (q: Option<Self>)
        ensures
            compact_query(bytes@).len() == 0 ==> q is None,
            compact_query(bytes@).len() > 0 ==> (q matches Some(v) && v.view_bytes() == compact_query(bytes@)),
    {
        let mut buf = [0u8; 74];
        let mut len: usize = 0;
        let mut token_count: usize = 0;
        let mut token_len: usize = 0;
        let mut in_token = false;
        let mut i: usize = 0;
        let ghost mut closed_at: int = -1;
        while i < bytes.len()
            invariant_except_break
                i <= bytes@.len(),
                token_count < 3,
                closed_at == -1,
                in_token == (i > 0 && !is_separator(bytes@[i - 1])),
                tokens_of(bytes@.take(i as int)).len() == token_count + if in_token { 1int } else { 0int },
                token_len == if in_token { cut_token(tokens_of(bytes@.take(i as int)).last()).len() as int } else { 0int },
                len <= 74,
                buf@.take(len as int) == joined(cut_tokens(tokens_of(bytes@.take(i as int)))),
            invariant
                i <= bytes@.len(),
                len <= 74,
            ensures
                closed_at == -1 ==> i == bytes@.len(),
                closed_at == -1 ==> buf@.take(len as int) == joined(cut_tokens(tokens_of(bytes@.take(i as int)))),
                closed_at == -1 ==> tokens_of(bytes@.take(i as int)).len() <= 3,
                closed_at != -1 ==> 0 < closed_at <= bytes@.len() && is_separator(bytes@[closed_at - 1]) && tokens_of(bytes@.take(closed_at)).len() == 3
                    && buf@.take(len as int) == joined(cut_tokens(tokens_of(bytes@.take(closed_at)))),
                len <= 74,
            decreases bytes@.len() - i,
        {
            let ghost prev = bytes@.take(i as int);
            let ghost next = bytes@.take(i + 1);
            let byte = bytes[i];
            proof {
                assert(next.drop_last() =~= prev);
                assert(next.last() == byte);
                lemma_tokens_shape(prev);
                if i > 0 {
                    assert(next[next.len() - 2] == bytes@[i - 1]);
                }
            }
            if byte == 32 || byte == 0 {
                if in_token {
                    token_count = token_count + 1;
                    token_len = 0;
                    in_token = false;
                    if token_count >= 3 {
                        proof {
                            closed_at = i + 1;
                        }
                        i = i + 1;
                        break;
                    }
                }
                i = i + 1;
                continue;
            }
            if token_count >= 3 {
                break;
            }
            let ghost t = tokens_of(prev);
            let ghost ct = cut_tokens(t);
            let ghost before = buf@.take(len as int);
            proof {
                assert forall|k: int| 0 <= k < ct.len() implies 1 <= #[trigger] ct[k].len() <= 24 by {
                    assert(t[k].len() >= 1);
                }
                lemma_joined_len(ct);
                if in_token {
                    lemma_joined_len(ct.drop_last());
                }
            }
            if token_len == 0 && len > 0 {
                buf[len] = 32;
                len = len + 1;
            }
            if token_len < 24 {
                buf[len] = byte;
                len = len + 1;
                token_len = token_len + 1;
            }
            in_token = true;
            i = i + 1;
            proof {
                let t2 = tokens_of(next);
                let ct2 = cut_tokens(t2);
                if !in_token_before(prev) {
                    assert(t2 =~= t.push(seq![byte]));
                    assert(ct2 =~= ct.push(seq![byte]));
                    assert(ct2.drop_last() =~= ct);
                    if ct.len() == 0 {
                        assert(buf@.take(len as int) =~= seq![byte]);
                    } else {
                        assert(buf@.take(len as int) =~= before + seq![32u8] + seq![byte]);
                    }
                } else {
                    let last = t.last();
                    assert(t2 =~= t.update(t.len() - 1, last.push(byte)));
                    assert(ct2.drop_last() =~= ct.drop_last());
                    if last.len() < 24 {
                        assert(cut_token(last) =~= last);
                        assert(cut_token(last.push(byte)) =~= last.push(byte));
                        assert(ct2.last() =~= ct.last().push(byte));
                        if ct.len() == 1 {
                            assert(buf@.take(len as int) =~= before.push(byte));
                        } else {
                            assert(buf@.take(len as int) =~= before.push(byte));
                        }
                    } else {
                        assert(cut_token(last.push(byte)) =~= cut_token(last));
                        assert(ct2 =~= ct);
                    }
                }
            }
        }
        proof {
            if closed_at == -1 {
                assert(bytes@.take(i as int) =~= bytes@);
                assert(tokens_of(bytes@).take(tokens_of(bytes@).len() as int) =~= tokens_of(bytes@));
            } else {
                let p = bytes@.take(closed_at);
                assert(bytes@.subrange(0, p.len() as int) =~= p);
                lemma_tokens_extend(p, bytes@);
            }
        }
        if len == 0 {
            None
        } else {
            Some(StorageSearchQuery { bytes: buf, len })
        }
    }

    /// The query's bytes.
    pub fn as_bytes(&self) -> (b: &[u8])
        ensures
            b@ == self.view_bytes(),
    {
        proof {
            use_type_invariant(self);
        }
        let (head, _) = self.bytes.as_slice().split_at(self.len);
        head
    }

    /// Number of bytes in the query.
    pub fn len(&self) -> (n: usize)
        ensures
            n == self.view_bytes().len(),
    {
        proof {
            use_type_invariant(self);
        }
        self.len
    }
}

} // verus!

verus! {

/// One search hit: the cursor of the next search, the kind of the entry
/// found and its path, `path_len` bytes long.
#[derive(Clone, Copy, Debug, PartialEq, Eq)]
pub struct StorageSearchHit<const PATH_MAX: usize> {
    pub next_cursor: usize,
    pub kind: StorageEntryKind,
    pub path: [u8; PATH_MAX],
    pub path_len: usize,
}

impl<const PATH_MAX: usize> StorageSearchHit<PATH_MAX> {
    /// The path bytes, cut at the path field's room.
    pub open spec fn spec_path(self) -> Seq<u8> {
        self.path@.take(if self.path_len <= PATH_MAX { self.path_len as int } else { PATH_MAX as int })
    }

    /// The path's bytes (at most the whole path field).
    pub fn path_as_bytes(&self) -> (b: &[u8])
        ensures
            b@ == self.spec_path(),
    {
        let n: usize = if self.path_len <= PATH_MAX { self.path_len } else { PATH_MAX };
        let (head, _) = self.path.as_slice().split_at(n);
        head
    }

    /// The path as text: empty when its bytes are not UTF-8.
    pub fn path_as_str(&self) -> (s: &str)
        ensures
            vstd::utf8::valid_utf8(self.spec_path()) ==> s.spec_bytes() == self.spec_path(),
            !vstd::utf8::valid_utf8(self.spec_path()) ==> s@ == Seq::<char>::empty(),
    {
        match str_from_utf8(self.path_as_bytes()) {
            Some(s) => s,
            None => {
                let e = "";
                proof {
                    reveal_strlit("");
                }
                e
            },
        }
    }
}

/// The words of a search request: the cursor, the scope's length, three
/// reserved zero words, the query's length, then the scope and the query.
pub open spec fn search_words(cursor: usize, scope: Seq<u8>, query: Seq<u8>) -> Seq<u64> {
    seq![cursor as u64, scope.len() as u64, 0u64, 0u64, 0u64, query.len() as u64] + packed_words(scope) + packed_words(query)
}

/// Builds a search request for `query` under the path prefix `scope`,
/// starting at `cursor`; `BufferTooSmall` when scope and query do not fit
/// one message together.
pub fn storage_search_request(cursor: usize, scope: &[u8], query: &StorageSearchQuery) -> (res: Result<RawMessage>)
    ensures
        6 + words_for(scope@.len()) + words_for(query.view_bytes().len()) > IPC_MAX_WORDS ==> res == Err::<RawMessage, Error>(Error::BufferTooSmall),
        6 + words_for(scope@.len()) + words_for(query.view_bytes().len()) <= IPC_MAX_WORDS ==> (res matches Ok(m)
            && is_request(m, STORAGE_SEARCH_REQUEST_TAG, search_words(cursor, scope@, query.view_bytes()))),
{
    let q = query.as_bytes();
    let scope_words = scope.len() / 8 + if scope.len() % 8 == 0 { 0 } else { 1 };
    let query_words = q.len() / 8 + if q.len() % 8 == 0 { 0 } else { 1 };
    if scope_words > IPC_MAX_WORDS || 6 + scope_words + query_words > IPC_MAX_WORDS {
        return Err(Error::BufferTooSmall);
    }
    let head: [u64; 6] = [cursor as u64, scope.len() as u64, 0, 0, 0, q.len() as u64];
    assert(head@ =~= seq![cursor as u64, scope@.len() as u64, 0u64, 0u64, 0u64, q@.len() as u64]);
    Ok(request_with_two(STORAGE_SEARCH_REQUEST_TAG, head.as_slice(), scope, q))
}

/// The entry kind a status-table word names, if any.
pub open spec fn entry_kind_of(w: u64) -> Option<StorageEntryKind> {
    if w as u32 == 0 {
        Some(StorageEntryKind::File)
    } else if w as u32 == 1 {
        Some(StorageEntryKind::Directory)
    } else {
        None
    }
}

fn entry_kind_from(w: u64) -> (k: Option<StorageEntryKind>)
    ensures
        k == entry_kind_of(w),
{
    let c = w as u32;
    if c == 0 {
        Some(StorageEntryKind::File)
    } else if c == 1 {
        Some(StorageEntryKind::Directory)
    } else {
        None
    }
}

/// What a search reply decodes to, for a path field of `path_max` bytes:
/// `None` at the end of the results, else the hit's cursor, kind and path
/// length. A reply of the wrong shape or status, an unknown kind, an empty
/// or over-long path, or a path the words cannot carry is refused.
pub open spec fn search_result(r: RawMessage, path_max: nat) -> Result<Option<(usize, StorageEntryKind, usize)>> {
    let len = (r.words[3] as usize) as nat;
    if r.tag != STORAGE_SEARCH_REPLY_TAG || r.word_count < 4 {
        Err(Error::InvalidArgument)
    } else if r.words[0] as u32 == StorageStatus::End.spec_code() {
        Ok(None)
    } else if r.words[0] as u32 != StorageStatus::Success.spec_code() {
        Err(Error::InvalidArgument)
    } else if entry_kind_of(r.words[2]) is None {
        Err(Error::InvalidArgument)
    } else if len == 0 || len > path_max {
        Err(Error::InvalidArgument)
    } else if words_for(len) > r.word_count - 4 {
        Err(Error::BufferTooSmall)
    } else {
        Ok(Some((r.words[1] as usize, entry_kind_of(r.words[2]).unwrap(), len as usize)))
    }
}

/// The hit `h` agrees with the decoded search result `d` and carries the
/// path bytes of reply `r` in front of zeros.
pub open spec fn hit_matches<const PATH_MAX: usize>(h: StorageSearchHit<PATH_MAX>, d: (usize, StorageEntryKind, usize), r: RawMessage) -> bool {
    &&& h.next_cursor == d.0
    &&& h.kind == d.1
    &&& h.path_len == d.2
    &&& h.path@.take(d.2 as int) == message_bytes(r, 4, d.2 as nat)
    &&& forall|k: int| d.2 <= k < PATH_MAX ==> h.path@[k] == 0u8
}

/// Decodes a search reply into a hit with a path field of `PATH_MAX` bytes.
pub fn storage_search_parse_reply<const PATH_MAX: usize>(reply: &RawMessage) -> (res: Result<Option<StorageSearchHit<PATH_MAX>>>)
    requires
        reply.wf(),
    ensures
        search_result(*reply, PATH_MAX as nat) matches Err(e) ==> res == Err::<Option<StorageSearchHit<PATH_MAX>>, Error>(e),
        search_result(*reply, PATH_MAX as nat) matches Ok(None) ==> res == Ok::<Option<StorageSearchHit<PATH_MAX>>, Error>(None),
        search_result(*reply, PATH_MAX as nat) matches Ok(Some(d)) ==> (res matches Ok(Some(h)) && hit_matches(h, d, *reply)),
{
    if reply.tag != STORAGE_SEARCH_REPLY_TAG || reply.word_count < 4 {
        return Err(Error::InvalidArgument);
    }
    let status = reply.words[0] as u32;
    if status == StorageStatus::End.code() {
        return Ok(None);
    }
    if status != StorageStatus::Success.code() {
        return Err(Error::InvalidArgument);
    }
    let kind = match entry_kind_from(reply.words[2]) {
        Some(k) => k,
        None => return Err(Error::InvalidArgument),
    };
    let path_len = reply.words[3] as usize;
    if path_len == 0 || path_len > PATH_MAX {
        return Err(Error::InvalidArgument);
    }
    let mut path = [0u8; PATH_MAX];
    let ghost zero = path@;
    match unpack_from(reply, 4, path_len, &mut path) {
        Ok(()) => {},
        Err(e) => return Err(e),
    }
    proof {
        assert forall|k: int| path_len <= k < PATH_MAX implies path@[k] == 0u8 by {
            assert(path@.subrange(path_len as int, PATH_MAX as int)[k - path_len] == zero.subrange(path_len as int, PATH_MAX as int)[k - path_len]);
        }
        assert(path@.take(path_len as int) =~= path@.subrange(0, path_len as int));
    }
    Ok(Some(StorageSearchHit { next_cursor: reply.words[1] as usize, kind, path, path_len }))
}

/// Step of searching for `query` under `scope` from `cursor`.
pub fn storage_search<const PATH_MAX: usize>(cursor: usize, scope: &[u8], query: &StorageSearchQuery, reply: Option<&RawMessage>) -> (step: Exchange<Option<StorageSearchHit<PATH_MAX>>>)
    requires
        reply_wf(reply),
    ensures
        reply is None && 6 + words_for(scope@.len()) + words_for(query.view_bytes().len()) > IPC_MAX_WORDS
            ==> step == Exchange::<Option<StorageSearchHit<PATH_MAX>>>::Done(Err(Error::BufferTooSmall)),
        reply is None && 6 + words_for(scope@.len()) + words_for(query.view_bytes().len()) <= IPC_MAX_WORDS
            ==> sends(step, STORAGE_SEARCH_REQUEST_TAG, search_words(cursor, scope@, query.view_bytes())),
        reply matches Some(r) ==> step matches Exchange::Done(res) && {
            &&& search_result(*r, PATH_MAX as nat) matches Err(e) ==> res == Err::<Option<StorageSearchHit<PATH_MAX>>, Error>(e)
            &&& search_result(*r, PATH_MAX as nat) matches Ok(None) ==> res == Ok::<Option<StorageSearchHit<PATH_MAX>>, Error>(None)
            &&& search_result(*r, PATH_MAX as nat) matches Ok(Some(d)) ==> (res matches Ok(Some(h)) && hit_matches(h, d, *r))
        },
{
    match reply {
        None => match storage_search_request(cursor, scope, query) {
            Ok(m) => Exchange::Send(m),
            Err(e) => Exchange::Done(Err(e)),
        },
        Some(r) => Exchange::Done(storage_search_parse_reply(r)),
    }
}

} // verus!

verus! {

/// The error a failed storage status word stands for. Each call maps only
/// some statuses (not-found, busy, denied, already-exists as busy); every
/// other word reads as `InvalidArgument`.
pub open spec fn storage_failure(code: u32, not_found: bool, busy: bool, denied: bool, exists: bool) -> Error {
    if not_found && code == StorageStatus::NotFound.spec_code() {
        Error::NotFound
    } else if busy && code == StorageStatus::Busy.spec_code() {
        Error::Busy
    } else if denied && code == StorageStatus::Denied.spec_code() {
        Error::PermissionDenied
    } else if exists && code == StorageStatus::AlreadyExists.spec_code() {
        Error::Busy
    } else {
        Error::InvalidArgument
    }
}

fn storage_failure_of(code: u32, not_found: bool, busy: bool, denied: bool, exists: bool) -> (e: Error)
    ensures
        e == storage_failure(code, not_found, busy, denied, exists),
{
    if not_found && code == StorageStatus::NotFound.code() {
        Error::NotFound
    } else if busy && code == StorageStatus::Busy.code() {
        Error::Busy
    } else if denied && code == StorageStatus::Denied.code() {
        Error::PermissionDenied
    } else if exists && code == StorageStatus::AlreadyExists.code() {
        Error::Busy
    } else {
        Error::InvalidArgument
    }
}

/// The status word of a storage reply.
pub open spec fn code_of(r: RawMessage) -> u32 {
    r.words[0] as u32
}

/// What a storage reply that transfers a handle decodes to: the handle and
/// the word at `at`, when the status is success and a handle came with it.
pub open spec fn handle_result(r: RawMessage, tag: u32, min: u32, at: int, not_found: bool, busy: bool, denied: bool) -> Result<(Handle, usize)> {
    if !reply_shape(r, tag, min) {
        Err(Error::InvalidArgument)
    } else if code_of(r) == StorageStatus::Success.spec_code() && r.handle_count > 0 {
        Ok((r.handles[0], r.words[at] as usize))
    } else {
        Err(storage_failure(code_of(r), not_found, busy, denied, false))
    }
}

fn handle_reply(r: &RawMessage, tag: u32, min: u32, at: usize) -> (res: Result<(Handle, usize)>)
    requires
        at < 16,
    ensures
        res == handle_result(*r, tag, min, at as int, true, true, true),
{
    if !has_shape(r, tag, min) {
        return Err(Error::InvalidArgument);
    }
    let code = r.words[0] as u32;
    if code == StorageStatus::Success.code() && r.handle_count > 0 {
        Ok((r.handles[0], r.words[at] as usize))
    } else {
        Err(storage_failure_of(code, true, true, true, false))
    }
}

/// The words of a request that carries `head` and then the packed `bytes`.
pub open spec fn with_bytes(head: Seq<u64>, bytes: Seq<u8>) -> Seq<u64> {
    head + packed_words(bytes)
}

/// Step of opening the blob at `path`; the outcome is the blob's handle and
/// its length.
pub fn storage_open(path: &str, reply: Option<&RawMessage>) -> (step: Exchange<(Handle, usize)>)
    ensures
        reply is None && path.spec_bytes().len() > 120 ==> step == Exchange::<(Handle, usize)>::Done(Err(Error::BufferTooSmall)),
        reply is None && path.spec_bytes().len() <= 120 ==> sends(step, StorageTag::OpenRequest.spec_code(), with_bytes(seq![path.spec_bytes().len() as u64], path.spec_bytes())),
        reply matches Some(r) ==> step == Exchange::Done(handle_result(*r, StorageTag::OpenReply.spec_code(), 2, 1, true, true, true)),
{
    match reply {
        None => {
            let bytes = path.as_bytes();
            if bytes.len() > (IPC_MAX_WORDS - 1) * 8 {
                return Exchange::Done(Err(Error::BufferTooSmall));
            }
            let head: [u64; 1] = [bytes.len() as u64];
            assert(head@ =~= seq![bytes@.len() as u64]);
            Exchange::Send(request_with_bytes(StorageTag::OpenRequest.code(), head.as_slice(), bytes))
        },
        Some(r) => Exchange::Done(handle_reply(r, StorageTag::OpenReply.code(), 2, 1)),
    }
}

/// Most bytes one read reply carries.
pub open spec fn read_room(cap: nat) -> nat {
    if cap < 104 { cap } else { 104 }
}

/// What a read reply decodes to for a buffer of `cap` bytes: the number of
/// bytes read, `BufferTooSmall` when that exceeds what was asked for, the
/// buffer, or what the words carry.
pub open spec fn read_result(r: RawMessage, cap: nat) -> Result<usize> {
    let n = (r.words[2] as usize) as nat;
    if !reply_shape(r, StorageTag::ReadReply.spec_code(), 3) {
        Err(Error::InvalidArgument)
    } else if code_of(r) != StorageStatus::Success.spec_code() {
        Err(storage_failure(code_of(r), true, false, false, false))
    } else if n > read_room(cap) {
        Err(Error::BufferTooSmall)
    } else {
        match unpack_outcome(r, 3, n, cap) {
            Err(e) => Err(e),
            Ok(_) => Ok(n as usize),
        }
    }
}

fn read_reply(r: &RawMessage, buffer: &mut [u8]) -> (res: Result<usize>)
    requires
        r.wf(),
    ensures
        res == read_result(*r, old(buffer)@.len()),
        res matches Ok(n) ==> bytes_written(old(buffer)@, final(buffer)@, *r, 3, n as nat),
        res is Err ==> final(buffer)@ == old(buffer)@,
{
    if !has_shape(r, StorageTag::ReadReply.code(), 3) {
        return Err(Error::InvalidArgument);
    }
    let code = r.words[0] as u32;
    if code != StorageStatus::Success.code() {
        return Err(storage_failure_of(code, true, false, false, false));
    }
    let n = r.words[2] as usize;
    let room: usize = if buffer.len() < 104 { buffer.len() } else { 104 };
    if n > room {
        return Err(Error::BufferTooSmall);
    }
    match unpack_from(r, 3, n, buffer) {
        Ok(()) => Ok(n),
        Err(e) => Err(e),
    }
}

/// Step of reading the blob from `offset` into `buffer`; the request asks
/// for at most as many bytes as one reply carries, and the outcome is the
/// number of bytes read into the front of the buffer.
pub fn storage_read(offset: usize, buffer: &mut [u8], reply: Option<&RawMessage>) -> (step: Exchange<usize>)
    requires
        reply_wf(reply),
    ensures
        final(buffer)@.len() == old(buffer)@.len(),
        reply is None ==> final(buffer)@ == old(buffer)@
            && sends(step, StorageTag::ReadRequest.spec_code(), seq![offset as u64, read_room(old(buffer)@.len()) as u64]),
        reply matches Some(r) ==> step == Exchange::Done(read_result(*r, old(buffer)@.len())),
        reply matches Some(r) ==> (step matches Exchange::Done(Ok(n)) ==> bytes_written(old(buffer)@, final(buffer)@, *r, 3, n as nat)),
        reply matches Some(r) ==> (step matches Exchange::Done(Err(_)) ==> final(buffer)@ == old(buffer)@),
{
    match reply {
        None => {
            let room: usize = if buffer.len() < 104 { buffer.len() } else { 104 };
            Exchange::Send(request2(StorageTag::ReadRequest.code(), offset as u64, room as u64))
        },
        Some(r) => Exchange::Done(read_reply(r, buffer)),
    }
}

/// The message that tells a blob it is closed. The caller sends it,
/// ignores whether the send succeeds, and then closes the blob's handle.
pub fn storage_blob_close() -> (m: RawMessage)
    ensures
        is_request(m, StorageTag::CloseRequest.spec_code(), Seq::empty()),
{
    RawMessage::empty(StorageTag::CloseRequest.code())
}

/// The listing status a reply's word names among those a listing accepts
/// (success, end, busy, and invalid path where `with_invalid_path`).
pub open spec fn listing_status_of(code: u32, with_invalid_path: bool) -> Option<StorageStatus> {
    if code == StorageStatus::Success.spec_code() {
        Some(StorageStatus::Success)
    } else if code == StorageStatus::End.spec_code() {
        Some(StorageStatus::End)
    } else if code == StorageStatus::Busy.spec_code() {
        Some(StorageStatus::Busy)
    } else if with_invalid_path && code == StorageStatus::InvalidPath.spec_code() {
        Some(StorageStatus::InvalidPath)
    } else {
        None
    }
}

fn listing_status_from(code: u32, with_invalid_path: bool) -> (s: Option<StorageStatus>)
    ensures
        s == listing_status_of(code, with_invalid_path),
{
    if code == StorageStatus::Success.code() {
        Some(StorageStatus::Success)
    } else if code == StorageStatus::End.code() {
        Some(StorageStatus::End)
    } else if code == StorageStatus::Busy.code() {
        Some(StorageStatus::Busy)
    } else if with_invalid_path && code == StorageStatus::InvalidPath.code() {
        Some(StorageStatus::InvalidPath)
    } else {
        None
    }
}

/// What a name-listing reply decodes to for a path buffer of `cap` bytes:
/// `None` at the end, else the status (a busy or invalid-path status still
/// carries a path) and the path's length.
pub open spec fn list_result(r: RawMessage, cap: nat) -> Result<Option<(StorageStatus, usize)>> {
    let n = (r.words[2] as usize) as nat;
    if !reply_shape(r, StorageTag::ListReply.spec_code(), 3) {
        Err(Error::InvalidArgument)
    } else if listing_status_of(code_of(r), true) is None {
        Err(Error::InvalidArgument)
    } else if listing_status_of(code_of(r), true) == Some(StorageStatus::End) {
        Ok(None)
    } else {
        match unpack_outcome(r, 3, n, cap) {
            Err(e) => Err(e),
            Ok(_) => Ok(Some((listing_status_of(code_of(r), true).unwrap(), n as usize))),
        }
    }
}

/// Step of reading entry `index` of the names under `prefix`, its path into
/// `path_buffer`.
pub fn storage_list(prefix: &str, index: usize, path_buffer: &mut [u8], reply: Option<&RawMessage>) -> (step: Exchange<Option<(StorageStatus, usize)>>)
    requires
        reply_wf(reply),
    ensures
        final(path_buffer)@.len() == old(path_buffer)@.len(),
        reply is None ==> final(path_buffer)@ == old(path_buffer)@,
        reply is None && prefix.spec_bytes().len() > 112 ==> step == Exchange::<Option<(StorageStatus, usize)>>::Done(Err(Error::BufferTooSmall)),
        reply is None && prefix.spec_bytes().len() <= 112 ==> sends(step, StorageTag::ListRequest.spec_code(), with_bytes(seq![index as u64, prefix.spec_bytes().len() as u64], prefix.spec_bytes())),
        reply matches Some(r) ==> step == Exchange::Done(list_result(*r, old(path_buffer)@.len())),
        reply matches Some(r) ==> (step matches Exchange::Done(Ok(Some((_, n)))) ==> bytes_written(old(path_buffer)@, final(path_buffer)@, *r, 3, n as nat)),
        reply matches Some(r) ==> (!(step matches Exchange::Done(Ok(Some(_)))) ==> final(path_buffer)@ == old(path_buffer)@),
{
    let r = match reply {
        None => {
            let bytes = prefix.as_bytes();
            if bytes.len() > (IPC_MAX_WORDS - 2) * 8 {
                return Exchange::Done(Err(Error::BufferTooSmall));
            }
            let head: [u64; 2] = [index as u64, bytes.len() as u64];
            assert(head@ =~= seq![index as u64, bytes@.len() as u64]);
            return Exchange::Send(request_with_bytes(StorageTag::ListRequest.code(), head.as_slice(), bytes));
        },
        Some(r) => r,
    };
    if !has_shape(r, StorageTag::ListReply.code(), 3) {
        return Exchange::Done(Err(Error::InvalidArgument));
    }
    let status = match listing_status_from(r.words[0] as u32, true) {
        Some(s) => s,
        None => return Exchange::Done(Err(Error::InvalidArgument)),
    };
    if status == StorageStatus::End {
        return Exchange::Done(Ok(None));
    }
    let n = r.words[2] as usize;
    match unpack_from(r, 3, n, path_buffer) {
        Ok(()) => Exchange::Done(Ok(Some((status, n)))),
        Err(e) => Exchange::Done(Err(e)),
    }
}

/// What a directory-entry reply decodes to for a path buffer of `cap`
/// bytes: `None` at the end, else the next cursor, the entry's kind and its
/// path's length.
pub open spec fn entry_result(r: RawMessage, tag: u32, with_invalid_path: bool, cap: nat) -> Result<Option<(usize, StorageEntryKind, usize)>> {
    let n = (r.words[3] as usize) as nat;
    if !reply_shape(r, tag, 4) {
        Err(Error::InvalidArgument)
    } else if listing_status_of(code_of(r), with_invalid_path) is None {
        Err(Error::InvalidArgument)
    } else if listing_status_of(code_of(r), with_invalid_path) == Some(StorageStatus::End) {
        Ok(None)
    } else if entry_kind_of(r.words[2]) is None {
        Err(Error::InvalidArgument)
    } else {
        match unpack_outcome(r, 4, n, cap) {
            Err(e) => Err(e),
            Ok(_) => Ok(Some((r.words[1] as usize, entry_kind_of(r.words[2]).unwrap(), n as usize))),
        }
    }
}

fn entry_reply(r: &RawMessage, tag: u32, with_invalid_path: bool, path_buffer: &mut [u8]) -> (res: Result<Option<(usize, StorageEntryKind, usize)>>)
    requires
        r.wf(),
    ensures
        res == entry_result(*r, tag, with_invalid_path, old(path_buffer)@.len()),
        res matches Ok(Some((_, _, n))) ==> bytes_written(old(path_buffer)@, final(path_buffer)@, *r, 4, n as nat),
        !(res matches Ok(Some(_))) ==> final(path_buffer)@ == old(path_buffer)@,
{
    if !has_shape(r, tag, 4) {
        return Err(Error::InvalidArgument);
    }
    let status = match listing_status_from(r.words[0] as u32, with_invalid_path) {
        Some(s) => s,
        None => return Err(Error::InvalidArgument),
    };
    if status == StorageStatus::End {
        return Ok(None);
    }
    let kind = match entry_kind_from(r.words[2]) {
        Some(k) => k,
        None => return Err(Error::InvalidArgument),
    };
    let n = r.words[3] as usize;
    match unpack_from(r, 4, n, path_buffer) {
        Ok(()) => Ok(Some((r.words[1] as usize, kind, n))),
        Err(e) => Err(e),
    }
}

/// Step of reading the directory entry at `cursor` under `prefix`, its path
/// into `path_buffer`.
pub fn storage_list_directory(prefix: &str, cursor: usize, path_buffer: &mut [u8], reply: Option<&RawMessage>) -> (step: Exchange<Option<(usize, StorageEntryKind, usize)>>)
    requires
        reply_wf(reply),
    ensures
        final(path_buffer)@.len() == old(path_buffer)@.len(),
        reply is None ==> final(path_buffer)@ == old(path_buffer)@,
        reply is None && prefix.spec_bytes().len() > 112 ==> step == Exchange::<Option<(usize, StorageEntryKind, usize)>>::Done(Err(Error::BufferTooSmall)),
        reply is None && prefix.spec_bytes().len() <= 112 ==> sends(step, StorageTag::DirectoryListRequest.spec_code(), with_bytes(seq![cursor as u64, prefix.spec_bytes().len() as u64], prefix.spec_bytes())),
        reply matches Some(r) ==> step == Exchange::Done(entry_result(*r, StorageTag::DirectoryListReply.spec_code(), true, old(path_buffer)@.len())),
        reply matches Some(r) ==> (step matches Exchange::Done(Ok(Some((_, _, n)))) ==> bytes_written(old(path_buffer)@, final(path_buffer)@, *r, 4, n as nat)),
        reply matches Some(r) ==> (!(step matches Exchange::Done(Ok(Some(_)))) ==> final(path_buffer)@ == old(path_buffer)@),
{
    match reply {
        None => {
            let bytes = prefix.as_bytes();
            if bytes.len() > (IPC_MAX_WORDS - 2) * 8 {
                return Exchange::Done(Err(Error::BufferTooSmall));
            }
            let head: [u64; 2] = [cursor as u64, bytes.len() as u64];
            assert(head@ =~= seq![cursor as u64, bytes@.len() as u64]);
            Exchange::Send(request_with_bytes(StorageTag::DirectoryListRequest.code(), head.as_slice(), bytes))
        },
        Some(r) => Exchange::Done(entry_reply(r, StorageTag::DirectoryListReply.code(), true, path_buffer)),
    }
}

/// Step of reading the directory entry at `cursor` of the open directory the
/// exchange is addressed to, its path into `path_buffer`.
pub fn storage_directory_read(cursor: usize, path_buffer: &mut [u8], reply: Option<&RawMessage>) -> (step: Exchange<Option<(usize, StorageEntryKind, usize)>>)
    requires
        reply_wf(reply),
    ensures
        final(path_buffer)@.len() == old(path_buffer)@.len(),
        reply is None ==> final(path_buffer)@ == old(path_buffer)@ && sends(step, StorageTag::DirectoryReadRequest.spec_code(), seq![cursor as u64]),
        reply matches Some(r) ==> step == Exchange::Done(entry_result(*r, StorageTag::DirectoryReadReply.spec_code(), false, old(path_buffer)@.len())),
        reply matches Some(r) ==> (step matches Exchange::Done(Ok(Some((_, _, n)))) ==> bytes_written(old(path_buffer)@, final(path_buffer)@, *r, 4, n as nat)),
        reply matches Some(r) ==> (!(step matches Exchange::Done(Ok(Some(_)))) ==> final(path_buffer)@ == old(path_buffer)@),
{
    match reply {
        None => Exchange::Send(request1(StorageTag::DirectoryReadRequest.code(), cursor as u64)),
        Some(r) => Exchange::Done(entry_reply(r, StorageTag::DirectoryReadReply.code(), false, path_buffer)),
    }
}

} // verus!

verus! {

/// What a reply that transfers only a handle decodes to.
pub open spec fn handle_only(r: Result<(Handle, usize)>) -> Result<Handle> {
    match r {
        Ok((h, _)) => Ok(h),
        Err(e) => Err(e),
    }
}

/// Step of opening the directory at `path`, for writing when `writable`.
pub fn storage_open_directory(path: &str, writable: bool, reply: Option<&RawMessage>) -> (step: Exchange<Handle>)
    ensures
        reply is None && path.spec_bytes().len() > 112 ==> step == Exchange::<Handle>::Done(Err(Error::BufferTooSmall)),
        reply is None && path.spec_bytes().len() <= 112 ==> sends(step, StorageTag::DirectoryOpenRequest.spec_code(),
            with_bytes(seq![path.spec_bytes().len() as u64, if writable { 1u64 } else { 0u64 }], path.spec_bytes())),
        reply matches Some(r) ==> step == Exchange::Done(handle_only(handle_result(*r, StorageTag::DirectoryOpenReply.spec_code(), 1, 0, true, true, true))),
{
    match reply {
        None => {
            let bytes = path.as_bytes();
            if bytes.len() > (IPC_MAX_WORDS - 2) * 8 {
                return Exchange::Done(Err(Error::BufferTooSmall));
            }
            let head: [u64; 2] = [bytes.len() as u64, if writable { 1 } else { 0 }];
            assert(head@ =~= seq![bytes@.len() as u64, if writable { 1u64 } else { 0u64 }]);
            Exchange::Send(request_with_bytes(StorageTag::DirectoryOpenRequest.code(), head.as_slice(), bytes))
        },
        Some(r) => Exchange::Done(
            match handle_reply(r, StorageTag::DirectoryOpenReply.code(), 1, 0) {
                Ok((h, _)) => Ok(h),
                Err(e) => Err(e),
            },
        ),
    }
}

/// What a reply that carries only a status decodes to, mapping the statuses
/// the call names.
pub open spec fn status_result(r: RawMessage, tag: u32, not_found: bool, busy: bool, denied: bool, exists: bool) -> Result<()> {
    if !reply_shape(r, tag, 1) {
        Err(Error::InvalidArgument)
    } else if code_of(r) == StorageStatus::Success.spec_code() {
        Ok(())
    } else {
        Err(storage_failure(code_of(r), not_found, busy, denied, exists))
    }
}

fn status_reply(r: &RawMessage, tag: u32, not_found: bool, busy: bool, denied: bool, exists: bool) -> (res: Result<()>)
    ensures
        res == status_result(*r, tag, not_found, busy, denied, exists),
{
    if !has_shape(r, tag, 1) {
        return Err(Error::InvalidArgument);
    }
    let code = r.words[0] as u32;
    if code == StorageStatus::Success.code() {
        Ok(())
    } else {
        Err(storage_failure_of(code, not_found, busy, denied, exists))
    }
}

/// Step of creating the entry `name` of `kind` in the open directory; an
/// entry that already exists reads as `Busy`.
pub fn storage_directory_create(name: &str, kind: StorageEntryKind, reply: Option<&RawMessage>) -> (step: Exchange<()>)
    ensures
        reply is None && name.spec_bytes().len() > 112 ==> step == Exchange::<()>::Done(Err(Error::BufferTooSmall)),
        reply is None && name.spec_bytes().len() <= 112 ==> sends(step, StorageTag::DirectoryCreateRequest.spec_code(),
            with_bytes(seq![kind.spec_code() as u64, name.spec_bytes().len() as u64], name.spec_bytes())),
        reply matches Some(r) ==> step == Exchange::Done(status_result(*r, StorageTag::DirectoryCreateReply.spec_code(), false, false, true, true)),
{
    match reply {
        None => {
            let bytes = name.as_bytes();
            if bytes.len() > (IPC_MAX_WORDS - 2) * 8 {
                return Exchange::Done(Err(Error::BufferTooSmall));
            }
            let head: [u64; 2] = [kind.code() as u64, bytes.len() as u64];
            assert(head@ =~= seq![kind.spec_code() as u64, bytes@.len() as u64]);
            Exchange::Send(request_with_bytes(StorageTag::DirectoryCreateRequest.code(), head.as_slice(), bytes))
        },
        Some(r) => Exchange::Done(status_reply(r, StorageTag::DirectoryCreateReply.code(), false, false, true, true)),
    }
}

/// Step of removing the entry `name` from the open directory.
pub fn storage_directory_remove(name: &str, reply: Option<&RawMessage>) -> (step: Exchange<()>)
    ensures
        reply is None && name.spec_bytes().len() > 120 ==> step == Exchange::<()>::Done(Err(Error::BufferTooSmall)),
        reply is None && name.spec_bytes().len() <= 120 ==> sends(step, StorageTag::DirectoryRemoveRequest.spec_code(),
            with_bytes(seq![name.spec_bytes().len() as u64], name.spec_bytes())),
        reply matches Some(r) ==> step == Exchange::Done(status_result(*r, StorageTag::DirectoryRemoveReply.spec_code(), true, true, true, false)),
{
    match reply {
        None => {
            let bytes = name.as_bytes();
            if bytes.len() > (IPC_MAX_WORDS - 1) * 8 {
                return Exchange::Done(Err(Error::BufferTooSmall));
            }
            let head: [u64; 1] = [bytes.len() as u64];
            assert(head@ =~= seq![bytes@.len() as u64]);
            Exchange::Send(request_with_bytes(StorageTag::DirectoryRemoveRequest.code(), head.as_slice(), bytes))
        },
        Some(r) => Exchange::Done(status_reply(r, StorageTag::DirectoryRemoveReply.code(), true, true, true, false)),
    }
}

/// The words of a request that carries a name's length, two flags, then the
/// name.
pub open spec fn flagged_name_words(name: Seq<u8>, a: bool, b: bool) -> Seq<u64> {
    with_bytes(seq![name.len() as u64, if a { 1u64 } else { 0u64 }, if b { 1u64 } else { 0u64 }], name)
}

fn flagged_name_request(tag: u32, bytes: &[u8], a: bool, b: bool) -> (m: RawMessage)
    requires
        bytes@.len() <= 104,
    ensures
        is_request(m, tag, flagged_name_words(bytes@, a, b)),
{
    let head: [u64; 3] = [bytes.len() as u64, if a { 1 } else { 0 }, if b { 1 } else { 0 }];
    assert(head@ =~= seq![bytes@.len() as u64, if a { 1u64 } else { 0u64 }, if b { 1u64 } else { 0u64 }]);
    request_with_bytes(tag, head.as_slice(), bytes)
}

/// Step of opening the file `name` of the open directory (creating it when
/// `create`, for writing when `writable`); the outcome is the blob's handle
/// and its length.
pub fn storage_directory_open_file(name: &str, create: bool, writable: bool, reply: Option<&RawMessage>) -> (step: Exchange<(Handle, usize)>)
    ensures
        reply is None && name.spec_bytes().len() > 104 ==> step == Exchange::<(Handle, usize)>::Done(Err(Error::BufferTooSmall)),
        reply is None && name.spec_bytes().len() <= 104 ==> sends(step, StorageTag::DirectoryOpenFileRequest.spec_code(), flagged_name_words(name.spec_bytes(), create, writable)),
        reply matches Some(r) ==> step == Exchange::Done(handle_result(*r, StorageTag::DirectoryOpenFileReply.spec_code(), 2, 1, true, true, true)),
{
    match reply {
        None => {
            let bytes = name.as_bytes();
            if bytes.len() > (IPC_MAX_WORDS - 3) * 8 {
                return Exchange::Done(Err(Error::BufferTooSmall));
            }
            Exchange::Send(flagged_name_request(StorageTag::DirectoryOpenFileRequest.code(), bytes, create, writable))
        },
        Some(r) => Exchange::Done(handle_reply(r, StorageTag::DirectoryOpenFileReply.code(), 2, 1)),
    }
}

/// What a write reply decodes to: the blob's length after the write.
pub open spec fn write_result(r: RawMessage) -> Result<usize> {
    if !reply_shape(r, StorageTag::WriteReply.spec_code(), 2) {
        Err(Error::InvalidArgument)
    } else if code_of(r) == StorageStatus::Success.spec_code() {
        Ok(r.words[1] as usize)
    } else {
        Err(storage_failure(code_of(r), false, true, true, false))
    }
}

/// The most bytes one write request carries.
pub const WRITE_CHUNK_BYTES: usize = 104;

/// The byte range of write `i` of a blob of `total` bytes: the chunks are
/// `WRITE_CHUNK_BYTES` long and the last one ends at `total`.
pub open spec fn write_chunk(total: nat, i: nat) -> (nat, nat) {
    (104 * i, if 104 * i + 104 <= total { 104 * i + 104 } else { total })
}

/// The number of writes a blob of `total` bytes takes.
pub open spec fn write_chunk_count(total: nat) -> nat {
    (total + 103) / 104
}

/// The byte ranges in which a blob of `total` bytes is written, in order:
/// consecutive, each nonempty and at most `WRITE_CHUNK_BYTES` long, the
/// first starting at zero and the last ending at `total`.
pub fn write_chunks(total: usize) -> (r: Vec<(usize, usize)>)
    ensures
        r@.len() == write_chunk_count(total as nat),
        forall|i: int| 0 <= i < r@.len() ==> (r@[i].0 as nat, r@[i].1 as nat) == #[trigger] write_chunk(total as nat, i as nat),
        forall|i: int| 0 <= i < r@.len() ==> #[trigger] r@[i].0 < r@[i].1 && r@[i].1 - r@[i].0 <= 104,
        forall|i: int| 0 <= i < r@.len() - 1 ==> #[trigger] r@[i].1 == r@[i + 1].0,
        r@.len() > 0 ==> r@[0].0 == 0 && r@.last().1 == total,
{
    let mut out: Vec<(usize, usize)> = Vec::new();
    let mut start: usize = 0;
    while start < total
        invariant
            start == (if 104 * out@.len() <= total { 104 * out@.len() } else { total as nat }),
            104 * out@.len() <= total + 103,
            forall|i: int| 0 <= i < out@.len() ==> (out@[i].0 as nat, out@[i].1 as nat) == #[trigger] write_chunk(total as nat, i as nat),
        decreases total - start,
    {
        let end = if total - start > 104 { start + 104 } else { total };
        out.push((start, end));
        start = end;
    }
    let n = out.len();
    assert forall|i: int| 0 <= i < n implies out@[i].0 < out@[i].1 && out@[i].1 - out@[i].0 <= 104 by {
        assert(write_chunk(total as nat, i as nat).0 == 104 * i);
        assert(104 * i <= 104 * (n - 1));
    }
    assert forall|i: int| 0 <= i < n - 1 implies out@[i].1 == out@[i + 1].0 by {
        assert(write_chunk(total as nat, i as nat).0 == 104 * i);
        assert(write_chunk(total as nat, (i + 1) as nat).0 == 104 * (i + 1));
        assert(104 * (i + 1) <= 104 * (n - 1));
    }
    if n > 0 {
        assert(write_chunk(total as nat, 0).0 == 0);
        assert(write_chunk(total as nat, (n - 1) as nat).1 == total);
        assert(out@.last() == out@[n - 1]);
    }
    assert(n == (total + 103) / 104) by (nonlinear_arith)
        requires
            104 * n >= total,
            104 * n <= total + 103,
    ;
    out
}

/// Step of writing `bytes` at `offset` of the blob, whose total length is
/// to be `total_len`.
pub fn storage_write(offset: usize, total_len: usize, bytes: &[u8], reply: Option<&RawMessage>) -> (step: Exchange<usize>)
    ensures
        reply is None && bytes@.len() > 104 ==> step == Exchange::<usize>::Done(Err(Error::BufferTooSmall)),
        reply is None && bytes@.len() <= 104 ==> sends(step, StorageTag::WriteRequest.spec_code(),
            with_bytes(seq![offset as u64, total_len as u64, bytes@.len() as u64], bytes@)),
        reply matches Some(r) ==> step == Exchange::Done(write_result(*r)),
{
    match reply {
        None => {
            if bytes.len() > (IPC_MAX_WORDS - 3) * 8 {
                return Exchange::Done(Err(Error::BufferTooSmall));
            }
            let head: [u64; 3] = [offset as u64, total_len as u64, bytes.len() as u64];
            assert(head@ =~= seq![offset as u64, total_len as u64, bytes@.len() as u64]);
            Exchange::Send(request_with_bytes(StorageTag::WriteRequest.code(), head.as_slice(), bytes))
        },
        Some(r) => {
            if !has_shape(r, StorageTag::WriteReply.code(), 2) {
                return Exchange::Done(Err(Error::InvalidArgument));
            }
            let code = r.words[0] as u32;
            if code == StorageStatus::Success.code() {
                Exchange::Done(Ok(r.words[1] as usize))
            } else {
                Exchange::Done(Err(storage_failure_of(code, false, true, true, false)))
            }
        },
    }
}

/// One mount of the storage service.
#[derive(Clone, Copy, Debug, PartialEq, Eq)]
pub struct StorageMountInfo {
    pub next_cursor: usize,
    pub kind: StorageMountKind,
    pub writable: bool,
    pub persistent: bool,
    pub path_len: usize,
}

/// The mount kind a word names, if any.
pub open spec fn mount_kind_of(w: u64) -> Option<StorageMountKind> {
    if w as u32 == 0 {
        Some(StorageMountKind::Boot)
    } else if w as u32 == 1 {
        Some(StorageMountKind::Persistent)
    } else if w as u32 == 2 {
        Some(StorageMountKind::Ephemeral)
    } else {
        None
    }
}

/// What a mount-listing reply decodes to for a path buffer of `cap` bytes:
/// `None` at the end, else the mount (flags of word 3: bit 0 writable, bit 1
/// persistent).
pub open spec fn mount_result(r: RawMessage, cap: nat) -> Result<Option<StorageMountInfo>> {
    let n = (r.words[4] as usize) as nat;
    if !reply_shape(r, StorageTag::MountListReply.spec_code(), 5) {
        Err(Error::InvalidArgument)
    } else if listing_status_of(code_of(r), false) is None {
        Err(Error::InvalidArgument)
    } else if listing_status_of(code_of(r), false) == Some(StorageStatus::End) {
        Ok(None)
    } else if mount_kind_of(r.words[2]) is None {
        Err(Error::InvalidArgument)
    } else {
        match unpack_outcome(r, 5, n, cap) {
            Err(e) => Err(e),
            Ok(_) => Ok(Some(StorageMountInfo {
                next_cursor: r.words[1] as usize,
                kind: mount_kind_of(r.words[2]).unwrap(),
                writable: r.words[3] & 1 != 0,
                persistent: r.words[3] & 2 != 0,
                path_len: n as usize,
            })),
        }
    }
}

/// Step of reading the mount at `cursor`, its path into `path_buffer`.
pub fn storage_mount_list(cursor: usize, path_buffer: &mut [u8], reply: Option<&RawMessage>) -> (step: Exchange<Option<StorageMountInfo>>)
    requires
        reply_wf(reply),
    ensures
        final(path_buffer)@.len() == old(path_buffer)@.len(),
        reply is None ==> final(path_buffer)@ == old(path_buffer)@ && sends(step, StorageTag::MountListRequest.spec_code(), seq![cursor as u64]),
        reply matches Some(r) ==> step == Exchange::Done(mount_result(*r, old(path_buffer)@.len())),
        reply matches Some(r) ==> (step matches Exchange::Done(Ok(Some(m))) ==> bytes_written(old(path_buffer)@, final(path_buffer)@, *r, 5, m.path_len as nat)),
        reply matches Some(r) ==> (!(step matches Exchange::Done(Ok(Some(_)))) ==> final(path_buffer)@ == old(path_buffer)@),
{
    let r = match reply {
        None => return Exchange::Send(request1(StorageTag::MountListRequest.code(), cursor as u64)),
        Some(r) => r,
    };
    if !has_shape(r, StorageTag::MountListReply.code(), 5) {
        return Exchange::Done(Err(Error::InvalidArgument));
    }
    let status = match listing_status_from(r.words[0] as u32, false) {
        Some(s) => s,
        None => return Exchange::Done(Err(Error::InvalidArgument)),
    };
    if status == StorageStatus::End {
        return Exchange::Done(Ok(None));
    }
    let c = r.words[2] as u32;
    let kind = if c == 0 {
        StorageMountKind::Boot
    } else if c == 1 {
        StorageMountKind::Persistent
    } else if c == 2 {
        StorageMountKind::Ephemeral
    } else {
        return Exchange::Done(Err(Error::InvalidArgument));
    };
    let n = r.words[4] as usize;
    match unpack_from(r, 5, n, path_buffer) {
        Ok(()) => Exchange::Done(Ok(Some(StorageMountInfo {
            next_cursor: r.words[1] as usize,
            kind,
            writable: r.words[3] & 1 != 0,
            persistent: r.words[3] & 2 != 0,
            path_len: n,
        }))),
        Err(e) => Exchange::Done(Err(e)),
    }
}

/// Step of walking `path` from the open directory to a directory (when
/// `directory`) or a file; the outcome is the handle reached and, for a
/// file, its length.
fn storage_directory_traverse(path: &str, directory: bool, writable: bool, reply: Option<&RawMessage>) -> (step: Exchange<(Handle, usize)>)
    ensures
        reply is None && path.spec_bytes().len() > 104 ==> step == Exchange::<(Handle, usize)>::Done(Err(Error::BufferTooSmall)),
        reply is None && path.spec_bytes().len() <= 104 ==> sends(step, StorageTag::DirectoryTraverseRequest.spec_code(), flagged_name_words(path.spec_bytes(), directory, writable)),
        reply matches Some(r) ==> step == Exchange::Done(handle_result(*r, StorageTag::DirectoryTraverseReply.spec_code(), 3, 2, true, true, true)),
{
    match reply {
        None => {
            let bytes = path.as_bytes();
            if bytes.len() > (IPC_MAX_WORDS - 3) * 8 {
                return Exchange::Done(Err(Error::BufferTooSmall));
            }
            Exchange::Send(flagged_name_request(StorageTag::DirectoryTraverseRequest.code(), bytes, directory, writable))
        },
        Some(r) => Exchange::Done(handle_reply(r, StorageTag::DirectoryTraverseReply.code(), 3, 2)),
    }
}

/// Step of opening the directory at `path` below the open directory.
pub fn storage_directory_open_path(path: &str, writable: bool, reply: Option<&RawMessage>) -> (step: Exchange<Handle>)
    ensures
        reply is None && path.spec_bytes().len() > 104 ==> step == Exchange::<Handle>::Done(Err(Error::BufferTooSmall)),
        reply is None && path.spec_bytes().len() <= 104 ==> sends(step, StorageTag::DirectoryTraverseRequest.spec_code(), flagged_name_words(path.spec_bytes(), true, writable)),
        reply matches Some(r) ==> step == Exchange::Done(handle_only(handle_result(*r, StorageTag::DirectoryTraverseReply.spec_code(), 3, 2, true, true, true))),
{
    match storage_directory_traverse(path, true, writable, reply) {
        Exchange::Send(m) => Exchange::Send(m),
        Exchange::Done(Ok((h, _))) => Exchange::Done(Ok(h)),
        Exchange::Done(Err(e)) => Exchange::Done(Err(e)),
    }
}

/// Step of opening the file at `path` below the open directory; the outcome
/// is the blob's handle and its length.
pub fn storage_directory_open_path_file(path: &str, writable: bool, reply: Option<&RawMessage>) -> (step: Exchange<(Handle, usize)>)
    ensures
        reply is None && path.spec_bytes().len() > 104 ==> step == Exchange::<(Handle, usize)>::Done(Err(Error::BufferTooSmall)),
        reply is None && path.spec_bytes().len() <= 104 ==> sends(step, StorageTag::DirectoryTraverseRequest.spec_code(), flagged_name_words(path.spec_bytes(), false, writable)),
        reply matches Some(r) ==> step == Exchange::Done(handle_result(*r, StorageTag::DirectoryTraverseReply.spec_code(), 3, 2, true, true, true)),
{
    storage_directory_traverse(path, false, writable, reply)
}

} // verus!

verus! {

/// `after` is `before` with bytes `at .. at + n` replaced by the first `n`
/// bytes of the stream carried by `r.words[start..]`.
pub open spec fn bytes_written_at(before: Seq<u8>, after: Seq<u8>, r: RawMessage, start: int, at: int, n: nat) -> bool {
    &&& after.len() == before.len()
    &&& after.subrange(at, at + n) == message_bytes(r, start, n)
    &&& forall|k: int| 0 <= k < before.len() && !(at <= k < at + n) ==> after[k] == before[k]
}

fn read_into(r: &RawMessage, buffer: &mut [u8], at: usize, cap: usize) -> (res: Result<usize>)
    requires
        r.wf(),
        at + cap <= old(buffer)@.len(),
    ensures
        res == read_result(*r, cap as nat),
        res matches Ok(n) ==> bytes_written_at(old(buffer)@, final(buffer)@, *r, 3, at as int, n as nat),
        res is Err ==> final(buffer)@ == old(buffer)@,
{
    if !has_shape(r, StorageTag::ReadReply.code(), 3) {
        return Err(Error::InvalidArgument);
    }
    let code = r.words[0] as u32;
    if code != StorageStatus::Success.code() {
        return Err(storage_failure_of(code, true, false, false, false));
    }
    let n = r.words[2] as usize;
    let room: usize = if cap < 104 { cap } else { 104 };
    if n > room {
        return Err(Error::BufferTooSmall);
    }
    let avail: usize = (r.word_count - 3) as usize;
    if n / 8 + (if n % 8 == 0 { 0 } else { 1 }) > avail {
        return Err(Error::BufferTooSmall);
    }
    let ghost before = buffer@;
    assert(at + cap <= buffer.len());
    let ghost ws = crate::message::payload(*r).subrange(3, r.word_count as int);
    let mut i: usize = 0;
    while i < n
        invariant
            r.wf(),
            3 <= r.word_count,
            ws == crate::message::payload(*r).subrange(3, r.word_count as int),
            words_for(n as nat) <= r.word_count - 3,
            n <= cap,
            at + cap <= buffer@.len(),
            buffer@.len() <= usize::MAX,
            buffer@.len() == before.len(),
            i <= n,
            forall|k: int| 0 <= k < i ==> buffer@[at + k] == crate::message::stream_byte(ws, k),
            forall|k: int| 0 <= k < buffer@.len() && !(at <= k < at + i) ==> buffer@[k] == before[k],
        decreases n - i,
    {
        assert(ws[(i / 8) as int] == r.words[3 + i / 8]);
        let b = crate::message::word_byte(r.words[3 + i / 8], i % 8);
        buffer[at + i] = b;
        i = i + 1;
    }
    proof {
        assert(buffer@.subrange(at as int, at + n) =~= message_bytes(*r, 3, n as nat));
    }
    Ok(n)
}

/// Step of reading a blob in full into the first `expected_len` bytes of
/// `buffer`, one read at a time; `progress` counts the bytes read so far.
/// Called without a reply it starts over (`BufferTooSmall` when the buffer
/// is shorter than `expected_len`); each reply's bytes are placed after
/// those already read. The reading ends with the count read when it reaches
/// `expected_len` or a read returns nothing, and with the first read's
/// error.
pub fn storage_read_all(buffer: &mut [u8], expected_len: usize, progress: &mut usize, reply: Option<&RawMessage>) -> (step: Exchange<usize>)
    requires
        reply_wf(reply),
        reply is Some ==> *old(progress) < expected_len <= old(buffer)@.len(),
    ensures
        final(buffer)@.len() == old(buffer)@.len(),
        reply is None ==> final(buffer)@ == old(buffer)@,
        reply is None && expected_len > old(buffer)@.len() ==> step == Exchange::<usize>::Done(Err(Error::BufferTooSmall)),
        reply is None && expected_len <= old(buffer)@.len() ==> *final(progress) == 0,
        reply is None && expected_len == 0 ==> step == Exchange::<usize>::Done(Ok(0)),
        reply is None && 0 < expected_len <= old(buffer)@.len() ==> sends(step, StorageTag::ReadRequest.spec_code(), seq![0u64, read_room(expected_len as nat) as u64]),
        reply matches Some(r) ==> {
            let done = *old(progress);
            let res = read_result(*r, (expected_len - done) as nat);
            &&& res matches Err(e) ==> step == Exchange::<usize>::Done(Err(e)) && final(buffer)@ == old(buffer)@
            &&& res matches Ok(n) ==> {
                &&& bytes_written_at(old(buffer)@, final(buffer)@, *r, 3, done as int, n as nat)
                &&& *final(progress) == done + n
                &&& (n == 0 || done + n >= expected_len) ==> step == Exchange::<usize>::Done(Ok((done + n) as usize))
                &&& !(n == 0 || done + n >= expected_len) ==> sends(step, StorageTag::ReadRequest.spec_code(),
                    seq![(done + n) as u64, read_room((expected_len - done - n) as nat) as u64])
            }
        },
{
    let r = match reply {
        None => {
            if expected_len > buffer.len() {
                return Exchange::Done(Err(Error::BufferTooSmall));
            }
            *progress = 0;
            if expected_len == 0 {
                return Exchange::Done(Ok(0));
            }
            let room: usize = if expected_len < 104 { expected_len } else { 104 };
            return Exchange::Send(request2(StorageTag::ReadRequest.code(), 0, room as u64));
        },
        Some(r) => r,
    };
    let done = *progress;
    match read_into(r, buffer, done, expected_len - done) {
        Err(e) => Exchange::Done(Err(e)),
        Ok(n) => {
            *progress = done + n;
            if n == 0 || done + n >= expected_len {
                Exchange::Done(Ok(done + n))
            } else {
                let left = expected_len - done - n;
                let room: usize = if left < 104 { left } else { 104 };
                Exchange::Send(request2(StorageTag::ReadRequest.code(), (done + n) as u64, room as u64))
            }
        },
    }
}

} // verus!
