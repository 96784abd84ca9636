//! Runtime-service protocol: compatibility environments, workload runs,
//! per-run session views, approval decisions and the runtime audit log.
use vstd::prelude::*;
use vstd::string::StringSliceAdditionalSpecFns;

use crate::abi::{PermissionPolicyState, RuntimeKind, RuntimeStatus, RuntimeTag, RuntimeWorkloadKind};
use crate::decode::{
    runtime_env_state_from_word, runtime_kind_from_word, runtime_run_state_from_word,
    runtime_status_error, runtime_status_from_word, runtime_workload_kind_from_word,
    security_audit_kind_from_word,
};
use crate::error::{Error, Result};
use crate::message::{
    copy_stream, has_shape, is_request, message_bytes, pack_into, packed_words, page_count, page_count_of, payload, reply_shape,
    reply_wf, request1, request2, request_with_bytes, sends, unpack_from, unpack_outcome, unpacked,
    words_for, written, Exchange, PageCursor, RawMessage,
};
use crate::types::{RuntimeAuditInfo, RuntimeEnvInfo, RuntimeRunInfo};

verus! {

/// Version of the sandbox manifest carried by a launch request.
pub const SANDBOX_MANIFEST_VERSION: u64 = 1;
/// Size in bytes of a sandbox manifest blob.
pub const SANDBOX_MANIFEST_BLOB_LEN: usize = 8;

/// What a runtime-service reply decodes to when its body is `value`:
/// `InvalidArgument` for a reply of the wrong tag or too few words, the error
/// of a status other than success, else `value`.
pub open spec fn runtime_result<T>(r: RawMessage, tag: u32, min: u32, value: T) -> Result<T> {
    if !reply_shape(r, tag, min) {
        Err(Error::InvalidArgument)
    } else if runtime_status_from_word(r.words[0]) == RuntimeStatus::Success {
        Ok(value)
    } else {
        Err(runtime_status_error(runtime_status_from_word(r.words[0])))
    }
}

fn runtime_check(r: &RawMessage, tag: u32, min: u32) -> (res: Result<()>)
    ensures
        res == runtime_result(*r, tag, min, ()),
{
    if !has_shape(r, tag, min) {
        return Err(Error::InvalidArgument);
    }
    let status = runtime_status_from_word(r.words[0]);
    if status == RuntimeStatus::Success {
        Ok(())
    } else {
        Err(runtime_status_error(status))
    }
}

/// The environment record a status reply carries in words 1 to 7.
pub open spec fn env_status_info(r: RawMessage) -> RuntimeEnvInfo {
    RuntimeEnvInfo {
        env_id: r.words[1] as u32,
        kind: runtime_kind_from_word(r.words[2]),
        state: runtime_env_state_from_word(r.words[3]),
        capabilities: r.words[4] as u32,
        mount_count: r.words[5] as u32,
        var_count: r.words[6] as u32,
        active_runs: r.words[7] as u32,
    }
}

fn env_status_info_of(r: &RawMessage) -> (info: RuntimeEnvInfo)
    ensures
        info == env_status_info(*r),
{
    RuntimeEnvInfo {
        env_id: r.words[1] as u32,
        kind: runtime_kind_from_word(r.words[2]),
        state: runtime_env_state_from_word(r.words[3]),
        capabilities: r.words[4] as u32,
        mount_count: r.words[5] as u32,
        var_count: r.words[6] as u32,
        active_runs: r.words[7] as u32,
    }
}

/// The environment record a listing page carries in the six words at `b`.
pub open spec fn env_list_entry(r: RawMessage, b: int) -> RuntimeEnvInfo {
    RuntimeEnvInfo {
        env_id: r.words[b] as u32,
        kind: runtime_kind_from_word(r.words[b + 1]),
        state: runtime_env_state_from_word(r.words[b + 2]),
        capabilities: r.words[b + 3] as u32,
        mount_count: r.words[b + 4] as u32,
        var_count: 0,
        active_runs: r.words[b + 5] as u32,
    }
}

/// The run record a listing page carries in the five words at `b`.
pub open spec fn run_list_entry(r: RawMessage, b: int) -> RuntimeRunInfo {
    RuntimeRunInfo {
        run_id: r.words[b] as u32,
        env_id: r.words[b + 1] as u32,
        workload: runtime_workload_kind_from_word(r.words[b + 2]),
        state: runtime_run_state_from_word(r.words[b + 3]),
        exit_code: r.words[b + 4],
    }
}

/// Step of creating a runtime environment of the given kind; the outcome is
/// the new environment's id.
pub fn runtime_env_create(kind: RuntimeKind, reply: Option<&RawMessage>) -> (step: Exchange<u32>)
    ensures
        reply is None ==> sends(step, RuntimeTag::EnvCreateRequest.spec_code(), seq![kind.spec_code() as u64]),
        reply matches Some(r) ==> step == Exchange::Done(runtime_result(*r, RuntimeTag::EnvCreateReply.spec_code(), 2, r.words[1] as u32)),
{
    match reply {
        None => Exchange::Send(request1(RuntimeTag::EnvCreateRequest.code(), kind.code() as u64)),
        Some(r) => Exchange::Done(
            match runtime_check(r, RuntimeTag::EnvCreateReply.code(), 2) {
                Ok(()) => Ok(r.words[1] as u32),
                Err(e) => Err(e),
            },
        ),
    }
}

/// Step of destroying a runtime environment.
pub fn runtime_env_destroy(env_id: u32, reply: Option<&RawMessage>) -> (step: Exchange<()>)
    ensures
        reply is None ==> sends(step, RuntimeTag::EnvDestroyRequest.spec_code(), seq![env_id as u64]),
        reply matches Some(r) ==> step == Exchange::Done(runtime_result(*r, RuntimeTag::EnvDestroyReply.spec_code(), 1, ())),
{
    match reply {
        None => Exchange::Send(request1(RuntimeTag::EnvDestroyRequest.code(), env_id as u64)),
        Some(r) => Exchange::Done(runtime_check(r, RuntimeTag::EnvDestroyReply.code(), 1)),
    }
}

/// Step of listing runtime environments into `envs`, one reply page at a
/// time. Called without a reply it restarts the listing; each reply page is
/// written after the entries already filled, and the listing ends with the
/// total count when a page is empty or its next cursor does not advance.
pub fn runtime_env_list(envs: &mut [RuntimeEnvInfo], cursor: &mut PageCursor, reply: Option<&RawMessage>) -> (step: Exchange<usize>)
    requires
        reply_wf(reply),
        reply is Some ==> old(cursor).filled <= old(envs)@.len(),
    ensures
        final(envs)@.len() == old(envs)@.len(),
        final(cursor).filled <= final(envs)@.len(),
        reply is None ==> *final(cursor) == (PageCursor { start: 0, filled: 0 }) && final(envs)@ == old(envs)@
            && sends(step, RuntimeTag::EnvListRequest.spec_code(), seq![0u64]),
        reply matches Some(r) ==> runtime_result(*r, RuntimeTag::EnvListReply.spec_code(), 3, ()) matches Err(e)
            ==> step == Exchange::<usize>::Done(Err(e)) && final(envs)@ == old(envs)@,
        reply matches Some(r) ==> runtime_result(*r, RuntimeTag::EnvListReply.spec_code(), 3, ()) is Ok
            && page_count(*r, old(cursor).filled as nat, old(envs)@.len(), 6) is Err
            ==> step == Exchange::<usize>::Done(Err(Error::BufferTooSmall)) && final(envs)@ == old(envs)@,
        reply matches Some(r) ==> (runtime_result(*r, RuntimeTag::EnvListReply.spec_code(), 3, ()) is Ok
            ==> (page_count(*r, old(cursor).filled as nat, old(envs)@.len(), 6) matches Ok(count) ==> {
                let filled = old(cursor).filled + count;
                let next = r.words[2] as usize;
                &&& written(old(envs)@, final(envs)@, old(cursor).filled as int, count as int, |i: int| env_list_entry(*r, 3 + i * 6))
                &&& final(cursor).filled == filled
                &&& (count == 0 || next <= old(cursor).start) ==> step == Exchange::<usize>::Done(Ok(filled as usize))
                &&& !(count == 0 || next <= old(cursor).start) ==> final(cursor).start == next
                    && sends(step, RuntimeTag::EnvListRequest.spec_code(), seq![next as u64])
            })),
{
    let r = match reply {
        None => {
            *cursor = PageCursor { start: 0, filled: 0 };
            return Exchange::Send(request1(RuntimeTag::EnvListRequest.code(), 0));
        },
        Some(r) => r,
    };
    match runtime_check(r, RuntimeTag::EnvListReply.code(), 3) {
        Ok(()) => {},
        Err(e) => return Exchange::Done(Err(e)),
    }
    let count = match page_count_of(r, cursor.filled, envs.len(), 6) {
        Ok(c) => c,
        Err(e) => return Exchange::Done(Err(e)),
    };
    let filled = cursor.filled;
    let ghost before = envs@;
    let mut i: usize = 0;
    while i < count
        invariant
            r.wf(),
            3 + count * 6 == r.word_count,
            filled + count <= envs.len(),
            envs@.len() == before.len(),
            i <= count,
            forall|k: int| filled <= k < filled + i ==> envs@[k] == env_list_entry(*r, 3 + (k - filled) * 6),
            forall|k: int| 0 <= k < envs@.len() && !(filled <= k < filled + i) ==> envs@[k] == before[k],
        decreases count - i,
    {
        let base = 3 + i * 6;
        envs[filled + i] = RuntimeEnvInfo {
            env_id: r.words[base] as u32,
            kind: runtime_kind_from_word(r.words[base + 1]),
            state: runtime_env_state_from_word(r.words[base + 2]),
            capabilities: r.words[base + 3] as u32,
            mount_count: r.words[base + 4] as u32,
            var_count: 0,
            active_runs: r.words[base + 5] as u32,
        };
        i = i + 1;
    }
    let next = r.words[2] as usize;
    let start = cursor.start;
    cursor.filled = filled + count;
    if count == 0 || next <= start {
        return Exchange::Done(Ok(filled + count));
    }
    cursor.start = next;
    Exchange::Send(request1(RuntimeTag::EnvListRequest.code(), next as u64))
}

/// Step of reading the status of a runtime environment.
pub fn runtime_env_status(env_id: u32, reply: Option<&RawMessage>) -> (step: Exchange<RuntimeEnvInfo>)
    ensures
        reply is None ==> sends(step, RuntimeTag::EnvStatusRequest.spec_code(), seq![env_id as u64]),
        reply matches Some(r) ==> step == Exchange::Done(runtime_result(*r, RuntimeTag::EnvStatusReply.spec_code(), 8, env_status_info(*r))),
{
    match reply {
        None => Exchange::Send(request1(RuntimeTag::EnvStatusRequest.code(), env_id as u64)),
        Some(r) => Exchange::Done(
            match runtime_check(r, RuntimeTag::EnvStatusReply.code(), 8) {
                Ok(()) => Ok(env_status_info_of(r)),
                Err(e) => Err(e),
            },
        ),
    }
}

/// What a reply describing a pair of strings (a mount's guest and source
/// paths, or a variable's key and value) decodes to: `None` when the service
/// reports no such entry, the two lengths when both fit their buffers and the
/// reply carries exactly their packed bytes.
pub open spec fn pair_result(r: RawMessage, tag: u32, first_cap: nat, second_cap: nat) -> Result<Option<(usize, usize)>> {
    if !reply_shape(r, tag, 3) {
        Err(Error::InvalidArgument)
    } else if runtime_status_from_word(r.words[0]) == RuntimeStatus::NotFound {
        Ok(None)
    } else if runtime_status_from_word(r.words[0]) != RuntimeStatus::Success {
        Err(runtime_status_error(runtime_status_from_word(r.words[0])))
    } else {
        let a = r.words[1] as usize;
        let b = r.words[2] as usize;
        if a > first_cap || b > second_cap || r.word_count != 3 + words_for((a + b) as nat) {
            Err(Error::BufferTooSmall)
        } else {
            Ok(Some((a, b)))
        }
    }
}

/// The two strings of a pair reply, as written to the caller's buffers.
pub open spec fn pair_written(r: RawMessage, first_old: Seq<u8>, first: Seq<u8>, second_old: Seq<u8>, second: Seq<u8>, a: usize, b: usize) -> bool {
    let both = message_bytes(r, 3, (a + b) as nat);
    &&& first.len() == first_old.len()
    &&& second.len() == second_old.len()
    &&& first.subrange(0, a as int) == both.subrange(0, a as int)
    &&& first.subrange(a as int, first.len() as int) == first_old.subrange(a as int, first_old.len() as int)
    &&& second.subrange(0, b as int) == both.subrange(a as int, (a + b) as int)
    &&& second.subrange(b as int, second.len() as int) == second_old.subrange(b as int, second_old.len() as int)
}

fn decode_pair(r: &RawMessage, tag: u32, first: &mut [u8], second: &mut [u8]) -> (res: Result<Option<(usize, usize)>>)
    requires
        r.wf(),
    ensures
        res == pair_result(*r, tag, old(first)@.len(), old(second)@.len()),
        res matches Ok(Some((a, b))) ==> pair_written(*r, old(first)@, final(first)@, old(second)@, final(second)@, a, b),
        !(res matches Ok(Some(_))) ==> final(first)@ == old(first)@ && final(second)@ == old(second)@,
{
    if !has_shape(r, tag, 3) {
        return Err(Error::InvalidArgument);
    }
    let status = runtime_status_from_word(r.words[0]);
    if status == RuntimeStatus::NotFound {
        return Ok(None);
    }
    if status != RuntimeStatus::Success {
        return Err(runtime_status_error(status));
    }
    let a = r.words[1] as usize;
    let b = r.words[2] as usize;
    if a > first.len() || b > second.len() {
        return Err(Error::BufferTooSmall);
    }
    let avail = (r.word_count - 3) as usize;
    if a > 104 || b > 104 {
        return Err(Error::BufferTooSmall);
    }
    let total = a + b;
    if total / 8 + (if total % 8 == 0 { 0 } else { 1 }) != avail {
        return Err(Error::BufferTooSmall);
    }
    copy_stream(r, 3, 0, a, first);
    copy_stream(r, 3, a, b, second);
    proof {
        let ws = payload(*r).subrange(3, r.word_count as int);
        let both = unpacked(ws, (a + b) as nat);
        assert(unpacked(ws, a as nat).subrange(0, a as int) =~= both.subrange(0, a as int));
        assert(unpacked(ws, (a + b) as nat).subrange(a as int, (a + b) as int) =~= both.subrange(a as int, (a + b) as int));
    }
    Ok(Some((a, b)))
}

/// Step of reading mount `index` of an environment into the guest-path and
/// source-path buffers; the outcome is the two path lengths, or `None` past
/// the last mount.
pub fn runtime_env_mount(env_id: u32, index: usize, guest: &mut [u8], source: &mut [u8], reply: Option<&RawMessage>) -> (step: Exchange<Option<(usize, usize)>>)
    requires
        reply_wf(reply),
    ensures
        reply is None ==> sends(step, RuntimeTag::EnvMountListRequest.spec_code(), seq![env_id as u64, index as u64])
            && final(guest)@ == old(guest)@ && final(source)@ == old(source)@,
        reply matches Some(r) ==> step == Exchange::Done(pair_result(*r, RuntimeTag::EnvMountListReply.spec_code(), old(guest)@.len(), old(source)@.len())),
        reply matches Some(r) ==> (step matches Exchange::Done(Ok(Some((a, b))))
            ==> pair_written(*r, old(guest)@, final(guest)@, old(source)@, final(source)@, a, b)),
        reply matches Some(r) ==> (!(step matches Exchange::Done(Ok(Some(_))))
            ==> final(guest)@ == old(guest)@ && final(source)@ == old(source)@),
{
    match reply {
        None => Exchange::Send(request2(RuntimeTag::EnvMountListRequest.code(), env_id as u64, index as u64)),
        Some(r) => Exchange::Done(decode_pair(r, RuntimeTag::EnvMountListReply.code(), guest, source)),
    }
}

/// Step of reading variable `index` of an environment into the key and value
/// buffers; the outcome is the two lengths, or `None` past the last variable.
pub fn runtime_env_var(env_id: u32, index: usize, key: &mut [u8], value: &mut [u8], reply: Option<&RawMessage>) -> (step: Exchange<Option<(usize, usize)>>)
    requires
        reply_wf(reply),
    ensures
        reply is None ==> sends(step, RuntimeTag::EnvVarListRequest.spec_code(), seq![env_id as u64, index as u64])
            && final(key)@ == old(key)@ && final(value)@ == old(value)@,
        reply matches Some(r) ==> step == Exchange::Done(pair_result(*r, RuntimeTag::EnvVarListReply.spec_code(), old(key)@.len(), old(value)@.len())),
        reply matches Some(r) ==> (step matches Exchange::Done(Ok(Some((a, b))))
            ==> pair_written(*r, old(key)@, final(key)@, old(value)@, final(value)@, a, b)),
        reply matches Some(r) ==> (!(step matches Exchange::Done(Ok(Some(_))))
            ==> final(key)@ == old(key)@ && final(value)@ == old(value)@),
{
    match reply {
        None => Exchange::Send(request2(RuntimeTag::EnvVarListRequest.code(), env_id as u64, index as u64)),
        Some(r) => Exchange::Done(decode_pair(r, RuntimeTag::EnvVarListReply.code(), key, value)),
    }
}

/// The little-endian word of an 8-byte manifest blob.
pub open spec fn manifest_word(blob: [u8; 8]) -> u64 {
    packed_words(blob@)[0]
}

/// The manifest header word: blob length, version in the top byte.
pub open spec fn manifest_header() -> u64 {
    0x0100_0000_0000_0008
}

/// The words of a launch envelope: env id, workload, argument length, the
/// packed argument, and for a manifest its header and blob words.
pub open spec fn launch_words(env_id: u32, workload: RuntimeWorkloadKind, arg: Seq<u8>, manifest: Option<[u8; 8]>) -> Seq<u64> {
    let head = seq![env_id as u64, workload.spec_code() as u64, arg.len() as u64] + packed_words(arg);
    match manifest {
        Some(blob) => head + seq![manifest_header(), manifest_word(blob)],
        None => head,
    }
}

/// The manifest blob a launch carries, if any.
pub open spec fn blob_of(manifest: Option<&[u8; 8]>) -> Option<[u8; 8]> {
    match manifest {
        Some(b) => Some(*b),
        None => None,
    }
}

/// Number of argument bytes a launch envelope can carry.
pub open spec fn launch_capacity(manifest: bool) -> nat {
    if manifest { 88 } else { 104 }
}

/// Packs the launch envelope into `request`: words 0..3 header, the packed
/// argument, then optionally one manifest header word and one manifest blob
/// word. The argument budget shrinks by two words when a manifest rides
/// along; an argument over budget is refused with `BufferTooSmall` and the
/// request is left as it was.
pub fn pack_launch_words(request: &mut RawMessage, env_id: u32, workload: RuntimeWorkloadKind, arg_bytes: &[u8], manifest: Option<&[u8; 8]>) -> (r: Result<()>)
    ensures
        arg_bytes@.len() > launch_capacity(manifest is Some) ==> r == Err::<(), Error>(Error::BufferTooSmall) && *final(request) == *old(request),
        arg_bytes@.len() <= launch_capacity(manifest is Some) ==> {
            let ws = launch_words(env_id, workload, arg_bytes@, blob_of(manifest));
            &&& r == Ok::<(), Error>(())
            &&& final(request).word_count == ws.len()
            &&& forall|i: int| #![trigger final(request).words[i]] 0 <= i < ws.len() ==> final(request).words[i] == ws[i]
            &&& forall|i: int| #![trigger final(request).words[i]] ws.len() <= i < 16 ==> final(request).words[i] == old(request).words[i]
            &&& final(request).tag == old(request).tag
            &&& final(request).flags == old(request).flags
            &&& final(request).handle_count == old(request).handle_count
            &&& final(request).handles == old(request).handles
            &&& final(request).handle_rights == old(request).handle_rights
        },
{
    let max_inline_bytes: usize = match manifest {
        Some(_) => 88,
        None => 104,
    };
    if arg_bytes.len() > max_inline_bytes {
        return Err(Error::BufferTooSmall);
    }
    let ghost before = *request;
    let packed = pack_into(&mut request.words, 3, arg_bytes);
    let manifest_words: u32 = match manifest {
        Some(_) => 2,
        None => 0,
    };
    request.word_count = 3 + packed + manifest_words;
    match manifest {
        Some(blob) => {
            let header_index = 3 + packed as usize;
            request.words[header_index] = (SANDBOX_MANIFEST_VERSION * 0x0100_0000_0000_0000) + SANDBOX_MANIFEST_BLOB_LEN as u64;
            request.words[header_index + 1] = crate::message::pack_word(blob.as_slice(), 0);
        },
        None => {},
    }
    request.words[0] = env_id as u64;
    request.words[1] = workload.code() as u64;
    request.words[2] = arg_bytes.len() as u64;
    proof {
        let ws = launch_words(env_id, workload, arg_bytes@, blob_of(manifest));
        let n = packed as int;
        assert forall|i: int| 0 <= i < ws.len() implies request.words[i] == ws[i] by {
            if 3 <= i < 3 + n {
                assert(request.words[3 + (i - 3)] == packed_words(arg_bytes@)[i - 3]);
            }
        }
    }
    Ok(())
}

/// Step of launching a workload in an environment with an argument string;
/// the outcome is the run id. The request carries no handles: the caller
/// attaches the reply endpoint and the output channel of the run.
pub fn runtime_run_launch(env_id: u32, workload: RuntimeWorkloadKind, argument: &str, reply: Option<&RawMessage>) -> (step: Exchange<u32>)
    ensures
        reply is None && argument.spec_bytes().len() > launch_capacity(false) ==> step == Exchange::<u32>::Done(Err(Error::BufferTooSmall)),
        reply is None && argument.spec_bytes().len() <= launch_capacity(false) ==> sends(step, RuntimeTag::RunLaunchRequest.spec_code(), launch_words(env_id, workload, argument.spec_bytes(), None)),
        reply matches Some(r) ==> step == Exchange::Done(runtime_result(*r, RuntimeTag::RunLaunchReply.spec_code(), 2, r.words[1] as u32)),
{
    runtime_run_launch_with_manifest(env_id, workload, argument, None, reply)
}

/// Launch variant that carries the workload's sandbox manifest as two
/// trailing envelope words; without a manifest the envelope is exactly the
/// one `runtime_run_launch` sends.
pub fn runtime_run_launch_with_manifest(env_id: u32, workload: RuntimeWorkloadKind, argument: &str, manifest: Option<&[u8; 8]>, reply: Option<&RawMessage>) -> (step: Exchange<u32>)
    ensures
        reply is None && argument.spec_bytes().len() > launch_capacity(manifest is Some) ==> step == Exchange::<u32>::Done(Err(Error::BufferTooSmall)),
        reply is None && argument.spec_bytes().len() <= launch_capacity(manifest is Some) ==> sends(step, RuntimeTag::RunLaunchRequest.spec_code(), launch_words(env_id, workload, argument.spec_bytes(), blob_of(manifest))),
        reply matches Some(r) ==> step == Exchange::Done(runtime_result(*r, RuntimeTag::RunLaunchReply.spec_code(), 2, r.words[1] as u32)),
{
    match reply {
        None => {
            let mut request = RawMessage::empty(RuntimeTag::RunLaunchRequest.code());
            let bytes = argument.as_bytes();
            match pack_launch_words(&mut request, env_id, workload, bytes, manifest) {
                Ok(()) => {
                    proof {
                        let ws = launch_words(env_id, workload, bytes@, blob_of(manifest));
                        assert(words_for(bytes@.len()) <= 13);
                        assert(ws.len() <= 16);
                        assert(is_request(request, RuntimeTag::RunLaunchRequest.spec_code(), ws));
                    }
                    Exchange::Send(request)
                },
                Err(e) => Exchange::Done(Err(e)),
            }
        },
        Some(r) => Exchange::Done(
            match runtime_check(r, RuntimeTag::RunLaunchReply.code(), 2) {
                Ok(()) => Ok(r.words[1] as u32),
                Err(e) => Err(e),
            },
        ),
    }
}

/// Step of listing workload runs into `runs`, one reply page at a time, as
/// `runtime_env_list` does for environments.
pub fn runtime_run_list(runs: &mut [RuntimeRunInfo], cursor: &mut PageCursor, reply: Option<&RawMessage>) -> (step: Exchange<usize>)
    requires
        reply_wf(reply),
        reply is Some ==> old(cursor).filled <= old(runs)@.len(),
    ensures
        final(runs)@.len() == old(runs)@.len(),
        final(cursor).filled <= final(runs)@.len(),
        reply is None ==> *final(cursor) == (PageCursor { start: 0, filled: 0 }) && final(runs)@ == old(runs)@
            && sends(step, RuntimeTag::RunListRequest.spec_code(), seq![0u64]),
        reply matches Some(r) ==> runtime_result(*r, RuntimeTag::RunListReply.spec_code(), 3, ()) matches Err(e)
            ==> step == Exchange::<usize>::Done(Err(e)) && final(runs)@ == old(runs)@,
        reply matches Some(r) ==> runtime_result(*r, RuntimeTag::RunListReply.spec_code(), 3, ()) is Ok
            && page_count(*r, old(cursor).filled as nat, old(runs)@.len(), 5) is Err
            ==> step == Exchange::<usize>::Done(Err(Error::BufferTooSmall)) && final(runs)@ == old(runs)@,
        reply matches Some(r) ==> (runtime_result(*r, RuntimeTag::RunListReply.spec_code(), 3, ()) is Ok
            ==> (page_count(*r, old(cursor).filled as nat, old(runs)@.len(), 5) matches Ok(count) ==> {
                let filled = old(cursor).filled + count;
                let next = r.words[2] as usize;
                &&& written(old(runs)@, final(runs)@, old(cursor).filled as int, count as int, |i: int| run_list_entry(*r, 3 + i * 5))
                &&& final(cursor).filled == filled
                &&& (count == 0 || next <= old(cursor).start) ==> step == Exchange::<usize>::Done(Ok(filled as usize))
                &&& !(count == 0 || next <= old(cursor).start) ==> final(cursor).start == next
                    && sends(step, RuntimeTag::RunListRequest.spec_code(), seq![next as u64])
            })),
{
    let r = match reply {
        None => {
            *cursor = PageCursor { start: 0, filled: 0 };
            return Exchange::Send(request1(RuntimeTag::RunListRequest.code(), 0));
        },
        Some(r) => r,
    };
    match runtime_check(r, RuntimeTag::RunListReply.code(), 3) {
        Ok(()) => {},
        Err(e) => return Exchange::Done(Err(e)),
    }
    let count = match page_count_of(r, cursor.filled, runs.len(), 5) {
        Ok(c) => c,
        Err(e) => return Exchange::Done(Err(e)),
    };
    let filled = cursor.filled;
    let ghost before = runs@;
    let mut i: usize = 0;
    while i < count
        invariant
            r.wf(),
            3 + count * 5 == r.word_count,
            filled + count <= runs.len(),
            runs@.len() == before.len(),
            i <= count,
            forall|k: int| filled <= k < filled + i ==> runs@[k] == run_list_entry(*r, 3 + (k - filled) * 5),
            forall|k: int| 0 <= k < runs@.len() && !(filled <= k < filled + i) ==> runs@[k] == before[k],
        decreases count - i,
    {
        let base = 3 + i * 5;
        runs[filled + i] = RuntimeRunInfo {
            run_id: r.words[base] as u32,
            env_id: r.words[base + 1] as u32,
            workload: runtime_workload_kind_from_word(r.words[base + 2]),
            state: runtime_run_state_from_word(r.words[base + 3]),
            exit_code: r.words[base + 4],
        };
        i = i + 1;
    }
    let next = r.words[2] as usize;
    let start = cursor.start;
    cursor.filled = filled + count;
    if count == 0 || next <= start {
        return Exchange::Done(Ok(filled + count));
    }
    cursor.start = next;
    Exchange::Send(request1(RuntimeTag::RunListRequest.code(), next as u64))
}

/// The run record a status reply carries in words 1 to 5.
pub open spec fn run_status_info(r: RawMessage) -> RuntimeRunInfo {
    RuntimeRunInfo {
        run_id: r.words[1] as u32,
        env_id: r.words[2] as u32,
        workload: runtime_workload_kind_from_word(r.words[3]),
        state: runtime_run_state_from_word(r.words[4]),
        exit_code: r.words[5],
    }
}

/// Step of reading the status of a workload run.
pub fn runtime_run_status(run_id: u32, reply: Option<&RawMessage>) -> (step: Exchange<RuntimeRunInfo>)
    ensures
        reply is None ==> sends(step, RuntimeTag::RunStatusRequest.spec_code(), seq![run_id as u64]),
        reply matches Some(r) ==> step == Exchange::Done(runtime_result(*r, RuntimeTag::RunStatusReply.spec_code(), 6, run_status_info(*r))),
{
    match reply {
        None => Exchange::Send(request1(RuntimeTag::RunStatusRequest.code(), run_id as u64)),
        Some(r) => Exchange::Done(
            match runtime_check(r, RuntimeTag::RunStatusReply.code(), 6) {
                Ok(()) => Ok(RuntimeRunInfo {
                    run_id: r.words[1] as u32,
                    env_id: r.words[2] as u32,
                    workload: runtime_workload_kind_from_word(r.words[3]),
                    state: runtime_run_state_from_word(r.words[4]),
                    exit_code: r.words[5],
                }),
                Err(e) => Err(e),
            },
        ),
    }
}

/// Step of reading the environment a run session belongs to.
pub fn runtime_session_info(reply: Option<&RawMessage>) -> (step: Exchange<RuntimeEnvInfo>)
    ensures
        reply is None ==> sends(step, RuntimeTag::SessionInfoRequest.spec_code(), Seq::<u64>::empty()),
        reply matches Some(r) ==> step == Exchange::Done(runtime_result(*r, RuntimeTag::SessionInfoReply.spec_code(), 8, env_status_info(*r))),
{
    match reply {
        None => Exchange::Send(RawMessage::empty(RuntimeTag::SessionInfoRequest.code())),
        Some(r) => Exchange::Done(
            match runtime_check(r, RuntimeTag::SessionInfoReply.code(), 8) {
                Ok(()) => Ok(env_status_info_of(r)),
                Err(e) => Err(e),
            },
        ),
    }
}

/// Step of reading mount `index` of the run session's environment.
pub fn runtime_session_mount(index: usize, guest: &mut [u8], source: &mut [u8], reply: Option<&RawMessage>) -> (step: Exchange<Option<(usize, usize)>>)
    requires
        reply_wf(reply),
    ensures
        reply is None ==> sends(step, RuntimeTag::SessionMountListRequest.spec_code(), seq![index as u64])
            && final(guest)@ == old(guest)@ && final(source)@ == old(source)@,
        reply matches Some(r) ==> step == Exchange::Done(pair_result(*r, RuntimeTag::SessionMountListReply.spec_code(), old(guest)@.len(), old(source)@.len())),
        reply matches Some(r) ==> (step matches Exchange::Done(Ok(Some((a, b))))
            ==> pair_written(*r, old(guest)@, final(guest)@, old(source)@, final(source)@, a, b)),
        reply matches Some(r) ==> (!(step matches Exchange::Done(Ok(Some(_))))
            ==> final(guest)@ == old(guest)@ && final(source)@ == old(source)@),
{
    match reply {
        None => Exchange::Send(request1(RuntimeTag::SessionMountListRequest.code(), index as u64)),
        Some(r) => Exchange::Done(decode_pair(r, RuntimeTag::SessionMountListReply.code(), guest, source)),
    }
}

/// Step of reading variable `index` of the run session's environment.
pub fn runtime_session_var(index: usize, key: &mut [u8], value: &mut [u8], reply: Option<&RawMessage>) -> (step: Exchange<Option<(usize, usize)>>)
    requires
        reply_wf(reply),
    ensures
        reply is None ==> sends(step, RuntimeTag::SessionVarListRequest.spec_code(), seq![index as u64])
            && final(key)@ == old(key)@ && final(value)@ == old(value)@,
        reply matches Some(r) ==> step == Exchange::Done(pair_result(*r, RuntimeTag::SessionVarListReply.spec_code(), old(key)@.len(), old(value)@.len())),
        reply matches Some(r) ==> (step matches Exchange::Done(Ok(Some((a, b))))
            ==> pair_written(*r, old(key)@, final(key)@, old(value)@, final(value)@, a, b)),
        reply matches Some(r) ==> (!(step matches Exchange::Done(Ok(Some(_))))
            ==> final(key)@ == old(key)@ && final(value)@ == old(value)@),
{
    match reply {
        None => Exchange::Send(request1(RuntimeTag::SessionVarListRequest.code(), index as u64)),
        Some(r) => Exchange::Done(decode_pair(r, RuntimeTag::SessionVarListReply.code(), key, value)),
    }
}

/// What a file-read reply decodes to for a buffer of `cap` bytes: the number
/// of bytes read.
pub open spec fn read_file_result(r: RawMessage, cap: nat) -> Result<usize> {
    match runtime_result(r, RuntimeTag::SessionReadFileReply.spec_code(), 2, ()) {
        Err(e) => Err(e),
        Ok(_) => {
            let n = r.words[1] as usize;
            if n > cap {
                Err(Error::BufferTooSmall)
            } else {
                match unpack_outcome(r, 2, n as nat, cap) {
                    Ok(_) => Ok(n),
                    Err(e) => Err(e),
                }
            }
        },
    }
}

/// Step of reading a file of the run session's guest filesystem from
/// `offset` into `buffer`; the outcome is the number of bytes read. The
/// request asks for at most as many bytes as one reply carries.
pub fn runtime_session_read_file(guest_path: &str, offset: usize, buffer: &mut [u8], reply: Option<&RawMessage>) -> (step: Exchange<usize>)
    requires
        reply_wf(reply),
    ensures
        final(buffer)@.len() == old(buffer)@.len(),
        reply is None && guest_path.spec_bytes().len() > 104 ==> step == Exchange::<usize>::Done(Err(Error::BufferTooSmall)),
        reply is None && guest_path.spec_bytes().len() <= 104 ==> sends(step, RuntimeTag::SessionReadFileRequest.spec_code(),
            seq![offset as u64, guest_path.spec_bytes().len() as u64, vstd::math::min(old(buffer)@.len() as int, 104) as u64] + packed_words(guest_path.spec_bytes())),
        reply is None ==> final(buffer)@ == old(buffer)@,
        reply matches Some(r) ==> step == Exchange::Done(read_file_result(*r, old(buffer)@.len())),
        reply matches Some(r) ==> (step matches Exchange::Done(Ok(n)) ==> final(buffer)@.subrange(0, n as int) == message_bytes(*r, 2, n as nat)
            && final(buffer)@.subrange(n as int, old(buffer)@.len() as int) == old(buffer)@.subrange(n as int, old(buffer)@.len() as int)),
        reply matches Some(r) ==> (step matches Exchange::Done(Err(_)) ==> final(buffer)@ == old(buffer)@),
{
    match reply {
        None => {
            let path = guest_path.as_bytes();
            if path.len() > 104 {
                return Exchange::Done(Err(Error::BufferTooSmall));
            }
            let requested: usize = if buffer.len() < 104 { buffer.len() } else { 104 };
            let head: [u64; 3] = [offset as u64, path.len() as u64, requested as u64];
            proof {
                assert(head@ =~= seq![offset as u64, guest_path.spec_bytes().len() as u64, vstd::math::min(old(buffer)@.len() as int, 104) as u64]);
            }
            Exchange::Send(request_with_bytes(RuntimeTag::SessionReadFileRequest.code(), head.as_slice(), path))
        },
        Some(r) => {
            match runtime_check(r, RuntimeTag::SessionReadFileReply.code(), 2) {
                Ok(()) => {},
                Err(e) => return Exchange::Done(Err(e)),
            }
            let n = r.words[1] as usize;
            if n > buffer.len() {
                return Exchange::Done(Err(Error::BufferTooSmall));
            }
            match unpack_from(r, 2, n, buffer) {
                Ok(()) => Exchange::Done(Ok(n)),
                Err(e) => Exchange::Done(Err(e)),
            }
        },
    }
}

/// The words of an approval decision: env id and policy, and for a masked
/// decision the allowed capability mask.
pub open spec fn decide_words(env_id: u32, policy: PermissionPolicyState, mask: Option<u32>) -> Seq<u64> {
    match mask {
        Some(m) => seq![env_id as u64, policy.spec_code() as u64, m as u64],
        None => seq![env_id as u64, policy.spec_code() as u64],
    }
}

/// Packs the approval decision: words 0..2 are the legacy shape (env id,
/// policy word); a masked decision appends word 2, the allowed capability
/// mask.
pub fn runtime_env_decide_request(env_id: u32, policy: PermissionPolicyState, mask: Option<u32>) -> (m: RawMessage)
    ensures
        is_request(m, RuntimeTag::EnvDecisionRequest.spec_code(), decide_words(env_id, policy, mask)),
{
    match mask {
        Some(allowed) => crate::message::request3(RuntimeTag::EnvDecisionRequest.code(), env_id as u64, policy.code() as u64, allowed as u64),
        None => request2(RuntimeTag::EnvDecisionRequest.code(), env_id as u64, policy.code() as u64),
    }
}

/// Step of recording an approval decision for an environment.
pub fn runtime_env_decide(env_id: u32, policy: PermissionPolicyState, reply: Option<&RawMessage>) -> (step: Exchange<()>)
    ensures
        reply is None ==> sends(step, RuntimeTag::EnvDecisionRequest.spec_code(), decide_words(env_id, policy, None)),
        reply matches Some(r) ==> step == Exchange::Done(runtime_result(*r, RuntimeTag::EnvDecisionReply.spec_code(), 1, ())),
{
    runtime_env_decide_with_mask(env_id, policy, None, reply)
}

/// Decision variant with a per-capability allow-mask: `Some(mask)` narrows
/// the grant to the requested subset; `None` keeps the legacy approve-all
/// shape.
pub fn runtime_env_decide_with_mask(env_id: u32, policy: PermissionPolicyState, allowed_mask: Option<u32>, reply: Option<&RawMessage>) -> (step: Exchange<()>)
    ensures
        reply is None ==> sends(step, RuntimeTag::EnvDecisionRequest.spec_code(), decide_words(env_id, policy, allowed_mask)),
        reply matches Some(r) ==> step == Exchange::Done(runtime_result(*r, RuntimeTag::EnvDecisionReply.spec_code(), 1, ())),
{
    match reply {
        None => Exchange::Send(runtime_env_decide_request(env_id, policy, allowed_mask)),
        Some(r) => Exchange::Done(runtime_check(r, RuntimeTag::EnvDecisionReply.code(), 1)),
    }
}

/// The audit record a reply carries in words 1 to 5.
pub open spec fn audit_info(r: RawMessage) -> RuntimeAuditInfo {
    RuntimeAuditInfo {
        sequence: r.words[1] as u32,
        kind: security_audit_kind_from_word(r.words[2]),
        env_id: r.words[3] as u32,
        capabilities: r.words[4] as u32,
        detail: r.words[5] / 0x1_0000_0000,
    }
}

/// What an audit-list reply decodes to: the record, or `None` past the end.
pub open spec fn audit_result(r: RawMessage) -> Result<Option<RuntimeAuditInfo>> {
    if !reply_shape(r, RuntimeTag::AuditListReply.spec_code(), 6) {
        Err(Error::InvalidArgument)
    } else if runtime_status_from_word(r.words[0]) == RuntimeStatus::Success {
        Ok(Some(audit_info(r)))
    } else if runtime_status_from_word(r.words[0]) == RuntimeStatus::NotFound {
        Ok(None)
    } else {
        Err(runtime_status_error(runtime_status_from_word(r.words[0])))
    }
}

/// Step of reading entry `index` of the runtime audit log.
pub fn runtime_audit_list(index: usize, reply: Option<&RawMessage>) -> (step: Exchange<Option<RuntimeAuditInfo>>)
    ensures
        reply is None ==> sends(step, RuntimeTag::AuditListRequest.spec_code(), seq![index as u64]),
        reply matches Some(r) ==> step == Exchange::Done(audit_result(*r)),
{
    match reply {
        None => Exchange::Send(request1(RuntimeTag::AuditListRequest.code(), index as u64)),
        Some(r) => {
            if !has_shape(r, RuntimeTag::AuditListReply.code(), 6) {
                return Exchange::Done(Err(Error::InvalidArgument));
            }
            let status = runtime_status_from_word(r.words[0]);
            if status == RuntimeStatus::Success {
                Exchange::Done(Ok(Some(RuntimeAuditInfo {
                    sequence: r.words[1] as u32,
                    kind: security_audit_kind_from_word(r.words[2]),
                    env_id: r.words[3] as u32,
                    capabilities: r.words[4] as u32,
                    detail: r.words[5] / 0x1_0000_0000,
                })))
            } else if status == RuntimeStatus::NotFound {
                Exchange::Done(Ok(None))
            } else {
                Exchange::Done(Err(runtime_status_error(status)))
            }
        },
    }
}

} // verus!
