//! Developer-service protocol: toolchains, workspaces, builds, jobs and
//! their artifacts. The caller attaches a reply channel (send right) to
//! each request and reads the reply from it; a build request also carries
//! the build's output channel.
use vstd::prelude::*;

use crate::abi::{DeveloperArtifactFormat, DeveloperStatus, DeveloperTag, DeveloperTarget};
use crate::decode::{
    developer_artifact_format_from_word, developer_job_state_from_word, developer_status_error,
    developer_status_from_word, developer_target_from_word, developer_toolchain_state_from_word,
};
use crate::error::{Error, Result};
use crate::message::{
    bytes_written, copy_stream, has_shape, message_bytes, reply_shape, reply_wf, request1, request2,
    segment_written, sends, unpack_from, unpack_outcome, words_for, Exchange, Handle, RawMessage,
};
use crate::types::{DeveloperJobInfo, DeveloperToolchainInfo, DeveloperWorkspaceInfo};

verus! {

/// What a developer reply's status says: `true` for success, `false` for
/// not-found (the end of a listing), else the error.
pub open spec fn dev_status(r: RawMessage, tag: u32, min: u32) -> Result<bool> {
    let status = developer_status_from_word(r.words[0]);
    if !reply_shape(r, tag, min) {
        Err(Error::InvalidArgument)
    } else if status == DeveloperStatus::Success {
        Ok(true)
    } else if status == DeveloperStatus::NotFound {
        Ok(false)
    } else {
        Err(developer_status_error(status))
    }
}

fn dev_status_of(r: &RawMessage, tag: u32, min: u32) -> (res: Result<bool>)
    ensures
        res == dev_status(*r, tag, min),
{
    if !has_shape(r, tag, min) {
        return Err(Error::InvalidArgument);
    }
    let status = developer_status_from_word(r.words[0]);
    if status == DeveloperStatus::Success {
        Ok(true)
    } else if status == DeveloperStatus::NotFound {
        Ok(false)
    } else {
        Err(developer_status_error(status))
    }
}

/// What a reply that must succeed decodes to.
pub open spec fn dev_result(r: RawMessage, tag: u32, min: u32) -> Result<()> {
    let status = developer_status_from_word(r.words[0]);
    if !reply_shape(r, tag, min) {
        Err(Error::InvalidArgument)
    } else if status == DeveloperStatus::Success {
        Ok(())
    } else {
        Err(developer_status_error(status))
    }
}

/// A 64-byte name field decodes from the words at `start` when its length
/// word fits it and the words carry it.
pub open spec fn name_field_ok(r: RawMessage, len_word: int, start: int) -> bool {
    let n = (r.words[len_word] as usize) as nat;
    n <= 64 && unpack_outcome(r, start, n, 64) is Ok
}

/// The 64-byte name field holds the name carried from word `start`, then
/// zeros.
pub open spec fn name_field(field: Seq<u8>, r: RawMessage, n: nat, start: int) -> bool {
    &&& field.len() == 64
    &&& field.take(n as int) == message_bytes(r, start, n)
    &&& forall|k: int| n <= k < 64 ==> field[k] == 0u8
}

fn name_field_from(r: &RawMessage, n: usize, start: usize) -> (res: Option<[u8; 64]>)
    requires
        r.wf(),
        start <= r.word_count,
    ensures
        res is Some <==> (n <= 64 && unpack_outcome(*r, start as int, n as nat, 64) is Ok),
        res matches Some(f) ==> name_field(f@, *r, n as nat, start as int),
{
    if n > 64 {
        return None;
    }
    let mut name = [0u8; 64];
    let ghost zero = name@;
    match unpack_from(r, start, n, &mut name) {
        Ok(()) => {},
        Err(_) => return None,
    }
    proof {
        assert forall|k: int| n <= k < 64 implies name@[k] == 0u8 by {
            assert(name@.subrange(n as int, 64)[k - n] == zero.subrange(n as int, 64)[k - n]);
        }
        assert(name@.take(n as int) =~= name@.subrange(0, n as int));
    }
    Some(name)
}

/// `e` is the toolchain a listing reply carries.
pub open spec fn toolchain_matches(e: DeveloperToolchainInfo, r: RawMessage) -> bool {
    &&& e.toolchain_id == r.words[1] as u32
    &&& e.target == developer_target_from_word(r.words[2])
    &&& e.state == developer_toolchain_state_from_word(r.words[3])
    &&& e.format == developer_artifact_format_from_word(r.words[4])
    &&& e.name_len == r.words[5] as u32
    &&& name_field(e.name@, r, (r.words[5] as usize) as nat, 6)
}

/// The outcome of one step of a listing that fills `entries` from position
/// `i`: the reply's status decides; a decoded entry goes to position `i`
/// and the listing goes on while room is left.
pub open spec fn listing_step<T>(before: Seq<T>, after: Seq<T>, i: usize, next: usize, status: Result<bool>, entry_ok: bool,
    matches: spec_fn(T) -> bool, step: Exchange<usize>, request_tag: u32) -> bool {
    match status {
        Err(e) => step == Exchange::<usize>::Done(Err(e)) && after == before && next == i,
        Ok(false) => step == Exchange::<usize>::Done(Ok(i)) && after == before && next == i,
        Ok(true) => if !entry_ok {
            step == Exchange::<usize>::Done(Err(Error::BufferTooSmall)) && after == before && next == i
        } else {
            &&& after.len() == before.len()
            &&& matches(after[i as int])
            &&& forall|k: int| 0 <= k < before.len() && k != i ==> after[k] == before[k]
            &&& next == i + 1
            &&& (i + 1 < before.len() ==> sends(step, request_tag, seq![(i + 1) as u64]))
            &&& (i + 1 >= before.len() ==> step == Exchange::<usize>::Done(Ok((i + 1) as usize)))
        },
    }
}

/// Step of listing the toolchains into `toolchains`, one request per entry;
/// `index` counts the entries filled. The listing ends when the room is
/// full or the service has no more.
pub fn developer_toolchain_list(toolchains: &mut [DeveloperToolchainInfo], index: &mut usize, reply: Option<&RawMessage>) -> (step: Exchange<usize>)
    requires
        reply_wf(reply),
        reply is Some ==> *old(index) < old(toolchains)@.len(),
    ensures
        final(toolchains)@.len() == old(toolchains)@.len(),
        reply is None ==> final(toolchains)@ == old(toolchains)@ && *final(index) == 0,
        reply is None && old(toolchains)@.len() == 0 ==> step == Exchange::<usize>::Done(Ok(0)),
        reply is None && old(toolchains)@.len() > 0 ==> sends(step, DeveloperTag::ToolchainListRequest.spec_code(), seq![0u64]),
        reply matches Some(r) ==> listing_step(old(toolchains)@, final(toolchains)@, *old(index), *final(index),
            dev_status(*r, DeveloperTag::ToolchainListReply.spec_code(), 6), name_field_ok(*r, 5, 6),
            |e: DeveloperToolchainInfo| toolchain_matches(e, *r), step, DeveloperTag::ToolchainListRequest.spec_code()),
{
    let r = match reply {
        None => {
            *index = 0;
            if toolchains.len() == 0 {
                return Exchange::Done(Ok(0));
            }
            return Exchange::Send(request1(DeveloperTag::ToolchainListRequest.code(), 0));
        },
        Some(r) => r,
    };
    let i = *index;
    match dev_status_of(r, DeveloperTag::ToolchainListReply.code(), 6) {
        Err(e) => return Exchange::Done(Err(e)),
        Ok(false) => return Exchange::Done(Ok(i)),
        Ok(true) => {},
    }
    let n = r.words[5] as usize;
    let name = match name_field_from(r, n, 6) {
        Some(f) => f,
        None => return Exchange::Done(Err(Error::BufferTooSmall)),
    };
    toolchains[i] = DeveloperToolchainInfo {
        toolchain_id: r.words[1] as u32,
        target: developer_target_from_word(r.words[2]),
        state: developer_toolchain_state_from_word(r.words[3]),
        format: developer_artifact_format_from_word(r.words[4]),
        name_len: n as u32,
        name,
    };
    *index = i + 1;
    if i + 1 < toolchains.len() {
        Exchange::Send(request1(DeveloperTag::ToolchainListRequest.code(), (i + 1) as u64))
    } else {
        Exchange::Done(Ok(i + 1))
    }
}

/// The toolchain record a status reply describes (its name field left
/// zero; the name goes to the caller's buffer).
pub open spec fn toolchain_status_of(r: RawMessage) -> (u32, DeveloperTarget, crate::abi::DeveloperToolchainState, DeveloperArtifactFormat, usize, usize) {
    (r.words[1] as u32, developer_target_from_word(r.words[2]), developer_toolchain_state_from_word(r.words[3]),
        developer_artifact_format_from_word(r.words[4]), r.words[5] as usize, r.words[6] as usize)
}

/// A toolchain status reply whose texts are copied out, for buffers of
/// `name_cap` and `sdk_cap` bytes: both fit their buffers, fit 128 bytes
/// together, and the words carry them.
pub open spec fn toolchain_texts_ok(r: RawMessage, name_cap: nat, sdk_cap: nat) -> bool {
    let a = (r.words[5] as usize) as nat;
    let b = (r.words[6] as usize) as nat;
    &&& a <= name_cap && b <= sdk_cap
    &&& a + b <= 128
    &&& words_for(a + b) <= r.word_count - 7
}

/// Step of reading toolchain `toolchain_id`: its record, its name into
/// `name` and its SDK root into `sdk_root`; the outcome also gives both
/// texts' lengths.
pub fn developer_toolchain_status(toolchain_id: u32, name: &mut [u8], sdk_root: &mut [u8], reply: Option<&RawMessage>) -> (step: Exchange<(DeveloperToolchainInfo, usize, usize)>)
    requires
        reply_wf(reply),
    ensures
        final(name)@.len() == old(name)@.len(),
        final(sdk_root)@.len() == old(sdk_root)@.len(),
        reply is None ==> sends(step, DeveloperTag::ToolchainInfoRequest.spec_code(), seq![toolchain_id as u64]),
        reply matches Some(r) ==> step matches Exchange::Done(res) && {
            &&& dev_result(*r, DeveloperTag::ToolchainInfoReply.spec_code(), 7) matches Err(e) ==> res == Err::<(DeveloperToolchainInfo, usize, usize), Error>(e)
            &&& dev_result(*r, DeveloperTag::ToolchainInfoReply.spec_code(), 7) is Ok && !toolchain_texts_ok(*r, old(name)@.len(), old(sdk_root)@.len())
                ==> res == Err::<(DeveloperToolchainInfo, usize, usize), Error>(Error::BufferTooSmall)
            &&& dev_result(*r, DeveloperTag::ToolchainInfoReply.spec_code(), 7) is Ok && toolchain_texts_ok(*r, old(name)@.len(), old(sdk_root)@.len()) ==> {
                let s = toolchain_status_of(*r);
                &&& res matches Ok((info, a, b))
                &&& info.toolchain_id == s.0 && info.target == s.1 && info.state == s.2 && info.format == s.3
                &&& info.name_len == s.4 as u32 && info.name@ == Seq::new(64, |k: int| 0u8)
                &&& a == s.4 && b == s.5
                &&& segment_written(old(name)@, final(name)@, *r, 7, 0, s.4 as nat)
                &&& segment_written(old(sdk_root)@, final(sdk_root)@, *r, 7, s.4 as nat, s.5 as nat)
            }
        },
        !(step matches Exchange::Done(Ok(_))) ==> final(name)@ == old(name)@ && final(sdk_root)@ == old(sdk_root)@,
{
    let r = match reply {
        None => return Exchange::Send(request1(DeveloperTag::ToolchainInfoRequest.code(), toolchain_id as u64)),
        Some(r) => r,
    };
    match dev_status_of(r, DeveloperTag::ToolchainInfoReply.code(), 7) {
        Err(e) => return Exchange::Done(Err(e)),
        Ok(false) => return Exchange::Done(Err(developer_status_error(DeveloperStatus::NotFound))),
        Ok(true) => {},
    }
    let a = r.words[5] as usize;
    let b = r.words[6] as usize;
    if a > name.len() || b > sdk_root.len() || a > 128 || b > 128 - a {
        return Exchange::Done(Err(Error::BufferTooSmall));
    }
    let total = a + b;
    let avail = (r.word_count - 7) as usize;
    if total / 8 + (if total % 8 == 0 { 0 } else { 1 }) > avail {
        return Exchange::Done(Err(Error::BufferTooSmall));
    }
    copy_stream(r, 7, 0, a, name);
    copy_stream(r, 7, a, b, sdk_root);
    let zeros = [0u8; 64];
    assert(zeros@ =~= Seq::new(64, |k: int| 0u8));
    Exchange::Done(Ok((DeveloperToolchainInfo {
        toolchain_id: r.words[1] as u32,
        target: developer_target_from_word(r.words[2]),
        state: developer_toolchain_state_from_word(r.words[3]),
        format: developer_artifact_format_from_word(r.words[4]),
        name_len: a as u32,
        name: zeros,
    }, a, b)))
}

} // verus!

verus! {

/// `e` is the workspace a listing reply carries: no source path, and no
/// toolchains (all slots `u32::MAX`).
pub open spec fn workspace_entry_matches(e: DeveloperWorkspaceInfo, r: RawMessage) -> bool {
    &&& e.workspace_id == r.words[1] as u32
    &&& e.target_mask == r.words[2] as u32
    &&& e.name_len == r.words[3] as u32
    &&& name_field(e.name@, r, (r.words[3] as usize) as nat, 4)
    &&& e.source_path_len == 0
    &&& e.source_path@ == Seq::new(96, |k: int| 0u8)
    &&& e.toolchains@ == seq![u32::MAX, u32::MAX, u32::MAX, u32::MAX]
}

/// Step of listing the workspaces into `workspaces`, one request per entry;
/// `index` counts the entries filled.
pub fn developer_workspace_list(workspaces: &mut [DeveloperWorkspaceInfo], index: &mut usize, reply: Option<&RawMessage>) -> (step: Exchange<usize>)
    requires
        reply_wf(reply),
        reply is Some ==> *old(index) < old(workspaces)@.len(),
    ensures
        final(workspaces)@.len() == old(workspaces)@.len(),
        reply is None ==> final(workspaces)@ == old(workspaces)@ && *final(index) == 0,
        reply is None && old(workspaces)@.len() == 0 ==> step == Exchange::<usize>::Done(Ok(0)),
        reply is None && old(workspaces)@.len() > 0 ==> sends(step, DeveloperTag::WorkspaceListRequest.spec_code(), seq![0u64]),
        reply matches Some(r) ==> listing_step(old(workspaces)@, final(workspaces)@, *old(index), *final(index),
            dev_status(*r, DeveloperTag::WorkspaceListReply.spec_code(), 4), name_field_ok(*r, 3, 4),
            |e: DeveloperWorkspaceInfo| workspace_entry_matches(e, *r), step, DeveloperTag::WorkspaceListRequest.spec_code()),
{
    let r = match reply {
        None => {
            *index = 0;
            if workspaces.len() == 0 {
                return Exchange::Done(Ok(0));
            }
            return Exchange::Send(request1(DeveloperTag::WorkspaceListRequest.code(), 0));
        },
        Some(r) => r,
    };
    let i = *index;
    match dev_status_of(r, DeveloperTag::WorkspaceListReply.code(), 4) {
        Err(e) => return Exchange::Done(Err(e)),
        Ok(false) => return Exchange::Done(Ok(i)),
        Ok(true) => {},
    }
    let n = r.words[3] as usize;
    let name = match name_field_from(r, n, 4) {
        Some(f) => f,
        None => return Exchange::Done(Err(Error::BufferTooSmall)),
    };
    let source_path = [0u8; 96];
    let toolchains = [u32::MAX; 4];
    assert(source_path@ =~= Seq::new(96, |k: int| 0u8));
    assert(toolchains@ =~= seq![u32::MAX, u32::MAX, u32::MAX, u32::MAX]);
    workspaces[i] = DeveloperWorkspaceInfo {
        workspace_id: r.words[1] as u32,
        target_mask: r.words[2] as u32,
        name_len: n as u32,
        name,
        source_path_len: 0,
        source_path,
        toolchains,
    };
    *index = i + 1;
    if i + 1 < workspaces.len() {
        Exchange::Send(request1(DeveloperTag::WorkspaceListRequest.code(), (i + 1) as u64))
    } else {
        Exchange::Done(Ok(i + 1))
    }
}

/// The name and source-path lengths a workspace status reply gives: the two
/// halves of word 2.
pub open spec fn workspace_lens(r: RawMessage) -> (nat, nat) {
    (((r.words[2] as u32) as usize) as nat, (((r.words[2] >> 32) as u32) as usize) as nat)
}

/// A workspace status reply whose texts are copied out, for buffers of
/// `name_cap` and `path_cap` bytes.
pub open spec fn workspace_texts_ok(r: RawMessage, name_cap: nat, path_cap: nat) -> bool {
    let (a, b) = workspace_lens(r);
    &&& a <= name_cap && b <= path_cap
    &&& a + b <= 128
    &&& words_for(a + b) <= r.word_count - 5
}

/// `w` is the workspace record a status reply describes: id and target mask
/// from the halves of word 1, lengths from word 2, toolchains from the
/// halves of words 3 and 4 (the text fields left zero; the texts go to the
/// caller's buffers).
pub open spec fn workspace_status_matches(w: DeveloperWorkspaceInfo, r: RawMessage) -> bool {
    &&& w.workspace_id == r.words[1] as u32
    &&& w.target_mask == (r.words[1] >> 32) as u32
    &&& w.name_len == workspace_lens(r).0 as u32
    &&& w.name@ == Seq::new(64, |k: int| 0u8)
    &&& w.source_path_len == workspace_lens(r).1 as u32
    &&& w.source_path@ == Seq::new(96, |k: int| 0u8)
    &&& w.toolchains@ == seq![r.words[3] as u32, (r.words[3] >> 32) as u32, r.words[4] as u32, (r.words[4] >> 32) as u32]
}

/// Step of reading workspace `workspace_id`: its record, its name into
/// `name` and its source path into `source_path`.
pub fn developer_workspace_status(workspace_id: u32, name: &mut [u8], source_path: &mut [u8], reply: Option<&RawMessage>) -> (step: Exchange<DeveloperWorkspaceInfo>)
    requires
        reply_wf(reply),
    ensures
        final(name)@.len() == old(name)@.len(),
        final(source_path)@.len() == old(source_path)@.len(),
        reply is None ==> sends(step, DeveloperTag::WorkspaceInfoRequest.spec_code(), seq![workspace_id as u64]),
        reply matches Some(r) ==> step matches Exchange::Done(res) && {
            &&& dev_result(*r, DeveloperTag::WorkspaceInfoReply.spec_code(), 5) matches Err(e) ==> res == Err::<DeveloperWorkspaceInfo, Error>(e)
            &&& dev_result(*r, DeveloperTag::WorkspaceInfoReply.spec_code(), 5) is Ok && !workspace_texts_ok(*r, old(name)@.len(), old(source_path)@.len())
                ==> res == Err::<DeveloperWorkspaceInfo, Error>(Error::BufferTooSmall)
            &&& dev_result(*r, DeveloperTag::WorkspaceInfoReply.spec_code(), 5) is Ok && workspace_texts_ok(*r, old(name)@.len(), old(source_path)@.len()) ==> {
                &&& res matches Ok(w)
                &&& workspace_status_matches(w, *r)
                &&& segment_written(old(name)@, final(name)@, *r, 5, 0, workspace_lens(*r).0)
                &&& segment_written(old(source_path)@, final(source_path)@, *r, 5, workspace_lens(*r).0, workspace_lens(*r).1)
            }
        },
        !(step matches Exchange::Done(Ok(_))) ==> final(name)@ == old(name)@ && final(source_path)@ == old(source_path)@,
{
    let r = match reply {
        None => return Exchange::Send(request1(DeveloperTag::WorkspaceInfoRequest.code(), workspace_id as u64)),
        Some(r) => r,
    };
    match dev_status_of(r, DeveloperTag::WorkspaceInfoReply.code(), 5) {
        Err(e) => return Exchange::Done(Err(e)),
        Ok(false) => return Exchange::Done(Err(developer_status_error(DeveloperStatus::NotFound))),
        Ok(true) => {},
    }
    let a = r.words[2] as u32 as usize;
    let b = (r.words[2] >> 32) as u32 as usize;
    if a > name.len() || b > source_path.len() || a > 128 || b > 128 - a {
        return Exchange::Done(Err(Error::BufferTooSmall));
    }
    let total = a + b;
    let avail = (r.word_count - 5) as usize;
    if total / 8 + (if total % 8 == 0 { 0 } else { 1 }) > avail {
        return Exchange::Done(Err(Error::BufferTooSmall));
    }
    copy_stream(r, 5, 0, a, name);
    copy_stream(r, 5, a, b, source_path);
    let zero_name = [0u8; 64];
    let zero_path = [0u8; 96];
    let toolchains = [r.words[3] as u32, (r.words[3] >> 32) as u32, r.words[4] as u32, (r.words[4] >> 32) as u32];
    assert(zero_name@ =~= Seq::new(64, |k: int| 0u8));
    assert(zero_path@ =~= Seq::new(96, |k: int| 0u8));
    assert(toolchains@ =~= seq![r.words[3] as u32, (r.words[3] >> 32) as u32, r.words[4] as u32, (r.words[4] >> 32) as u32]);
    Exchange::Done(Ok(DeveloperWorkspaceInfo {
        workspace_id: r.words[1] as u32,
        target_mask: (r.words[1] >> 32) as u32,
        name_len: a as u32,
        name: zero_name,
        source_path_len: b as u32,
        source_path: zero_path,
        toolchains,
    }))
}

/// Step of submitting a build of `workspace_id` for `target`; the outcome
/// is the job's id. The caller attaches the reply channel and a duplicate
/// of the output channel (send, duplicate and transfer rights).
pub fn developer_build_submit(workspace_id: u32, target: DeveloperTarget, reply: Option<&RawMessage>) -> (step: Exchange<u32>)
    ensures
        reply is None ==> sends(step, DeveloperTag::BuildRequest.spec_code(), seq![workspace_id as u64, target.spec_code() as u64]),
        reply matches Some(r) ==> step == Exchange::Done(match dev_result(*r, DeveloperTag::BuildReply.spec_code(), 2) {
            Ok(_) => Ok::<u32, Error>(r.words[1] as u32),
            Err(e) => Err(e),
        }),
{
    match reply {
        None => Exchange::Send(request2(DeveloperTag::BuildRequest.code(), workspace_id as u64, target.code() as u64)),
        Some(r) => Exchange::Done(
            match dev_status_of(r, DeveloperTag::BuildReply.code(), 2) {
                Ok(true) => Ok(r.words[1] as u32),
                Ok(false) => Err(developer_status_error(DeveloperStatus::NotFound)),
                Err(e) => Err(e),
            },
        ),
    }
}

/// `e` is the job a listing reply carries (no artifact name).
pub open spec fn job_entry_matches(e: DeveloperJobInfo, r: RawMessage) -> bool {
    &&& e.job_id == r.words[1] as u32
    &&& e.workspace_id == r.words[2] as u32
    &&& e.target == developer_target_from_word(r.words[3])
    &&& e.state == developer_job_state_from_word(r.words[4])
    &&& e.format == developer_artifact_format_from_word(r.words[5])
    &&& e.artifact_size == r.words[6] as usize
    &&& e.artifact_name_len == 0
    &&& e.artifact_name@ == Seq::new(64, |k: int| 0u8)
}

fn job_from(r: &RawMessage, name_len: u32) -> (j: DeveloperJobInfo)
    ensures
        j.job_id == r.words[1] as u32,
        j.workspace_id == r.words[2] as u32,
        j.target == developer_target_from_word(r.words[3]),
        j.state == developer_job_state_from_word(r.words[4]),
        j.format == developer_artifact_format_from_word(r.words[5]),
        j.artifact_size == r.words[6] as usize,
        j.artifact_name_len == name_len,
        j.artifact_name@ == Seq::new(64, |k: int| 0u8),
{
    let zeros = [0u8; 64];
    assert(zeros@ =~= Seq::new(64, |k: int| 0u8));
    DeveloperJobInfo {
        job_id: r.words[1] as u32,
        workspace_id: r.words[2] as u32,
        target: developer_target_from_word(r.words[3]),
        state: developer_job_state_from_word(r.words[4]),
        format: developer_artifact_format_from_word(r.words[5]),
        artifact_size: r.words[6] as usize,
        artifact_name_len: name_len,
        artifact_name: zeros,
    }
}

/// Step of listing the build jobs into `jobs`, one request per entry;
/// `index` counts the entries filled.
pub fn developer_job_list(jobs: &mut [DeveloperJobInfo], index: &mut usize, reply: Option<&RawMessage>) -> (step: Exchange<usize>)
    requires
        reply_wf(reply),
        reply is Some ==> *old(index) < old(jobs)@.len(),
    ensures
        final(jobs)@.len() == old(jobs)@.len(),
        reply is None ==> final(jobs)@ == old(jobs)@ && *final(index) == 0,
        reply is None && old(jobs)@.len() == 0 ==> step == Exchange::<usize>::Done(Ok(0)),
        reply is None && old(jobs)@.len() > 0 ==> sends(step, DeveloperTag::JobListRequest.spec_code(), seq![0u64]),
        reply matches Some(r) ==> listing_step(old(jobs)@, final(jobs)@, *old(index), *final(index),
            dev_status(*r, DeveloperTag::JobListReply.spec_code(), 7), true,
            |e: DeveloperJobInfo| job_entry_matches(e, *r), step, DeveloperTag::JobListRequest.spec_code()),
{
    let r = match reply {
        None => {
            *index = 0;
            if jobs.len() == 0 {
                return Exchange::Done(Ok(0));
            }
            return Exchange::Send(request1(DeveloperTag::JobListRequest.code(), 0));
        },
        Some(r) => r,
    };
    let i = *index;
    match dev_status_of(r, DeveloperTag::JobListReply.code(), 7) {
        Err(e) => return Exchange::Done(Err(e)),
        Ok(false) => return Exchange::Done(Ok(i)),
        Ok(true) => {},
    }
    jobs[i] = job_from(r, 0);
    *index = i + 1;
    if i + 1 < jobs.len() {
        Exchange::Send(request1(DeveloperTag::JobListRequest.code(), (i + 1) as u64))
    } else {
        Exchange::Done(Ok(i + 1))
    }
}

/// What a job status reply decodes to for a name buffer of `cap` bytes: the
/// job (its artifact name's length from word 7); `BufferTooSmall` when the
/// name exceeds the buffer or the words.
pub open spec fn job_status_ok(r: RawMessage, cap: nat) -> bool {
    let n = (r.words[7] as usize) as nat;
    n <= cap && unpack_outcome(r, 8, n, cap) is Ok
}

/// Step of reading job `job_id`, its artifact name into `artifact_name`.
pub fn developer_job_status(job_id: u32, artifact_name: &mut [u8], reply: Option<&RawMessage>) -> (step: Exchange<DeveloperJobInfo>)
    requires
        reply_wf(reply),
    ensures
        final(artifact_name)@.len() == old(artifact_name)@.len(),
        reply is None ==> sends(step, DeveloperTag::JobInfoRequest.spec_code(), seq![job_id as u64]),
        reply matches Some(r) ==> step matches Exchange::Done(res) && {
            &&& dev_result(*r, DeveloperTag::JobInfoReply.spec_code(), 8) matches Err(e) ==> res == Err::<DeveloperJobInfo, Error>(e)
            &&& dev_result(*r, DeveloperTag::JobInfoReply.spec_code(), 8) is Ok && !job_status_ok(*r, old(artifact_name)@.len())
                ==> res == Err::<DeveloperJobInfo, Error>(Error::BufferTooSmall)
            &&& dev_result(*r, DeveloperTag::JobInfoReply.spec_code(), 8) is Ok && job_status_ok(*r, old(artifact_name)@.len()) ==> {
                &&& res matches Ok(j)
                &&& j.job_id == r.words[1] as u32 && j.workspace_id == r.words[2] as u32
                &&& j.target == developer_target_from_word(r.words[3]) && j.state == developer_job_state_from_word(r.words[4])
                &&& j.format == developer_artifact_format_from_word(r.words[5]) && j.artifact_size == r.words[6] as usize
                &&& j.artifact_name_len == r.words[7] as u32 && j.artifact_name@ == Seq::new(64, |k: int| 0u8)
                &&& bytes_written(old(artifact_name)@, final(artifact_name)@, *r, 8, (r.words[7] as usize) as nat)
            }
        },
        !(step matches Exchange::Done(Ok(_))) ==> final(artifact_name)@ == old(artifact_name)@,
{
    let r = match reply {
        None => return Exchange::Send(request1(DeveloperTag::JobInfoRequest.code(), job_id as u64)),
        Some(r) => r,
    };
    match dev_status_of(r, DeveloperTag::JobInfoReply.code(), 8) {
        Err(e) => return Exchange::Done(Err(e)),
        Ok(false) => return Exchange::Done(Err(developer_status_error(DeveloperStatus::NotFound))),
        Ok(true) => {},
    }
    let n = r.words[7] as usize;
    if n > artifact_name.len() {
        return Exchange::Done(Err(Error::BufferTooSmall));
    }
    match unpack_from(r, 8, n, artifact_name) {
        Ok(()) => {},
        Err(e) => return Exchange::Done(Err(e)),
    }
    Exchange::Done(Ok(job_from(r, n as u32)))
}

/// What an artifact-open reply decodes to for a name buffer of `cap`
/// bytes: the artifact's channel, size, format and name length; a success
/// without a channel reads as `InvalidArgument`.
pub open spec fn artifact_result(r: RawMessage, cap: nat) -> Result<(Handle, usize, DeveloperArtifactFormat, usize)> {
    let n = (r.words[3] as usize) as nat;
    match dev_result(r, DeveloperTag::ArtifactOpenReply.spec_code(), 4) {
        Err(e) => Err(e),
        Ok(_) => if r.handle_count == 0 {
            Err(Error::InvalidArgument)
        } else if n > cap {
            Err(Error::BufferTooSmall)
        } else {
            match unpack_outcome(r, 4, n, cap) {
                Err(e) => Err(e),
                Ok(_) => Ok((r.handles[0], r.words[1] as usize, developer_artifact_format_from_word(r.words[2]), n as usize)),
            }
        },
    }
}

/// Step of opening the artifact of job `job_id`, its name into
/// `artifact_name`.
pub fn developer_artifact_open(job_id: u32, artifact_name: &mut [u8], reply: Option<&RawMessage>) -> (step: Exchange<(Handle, usize, DeveloperArtifactFormat, usize)>)
    requires
        reply_wf(reply),
    ensures
        final(artifact_name)@.len() == old(artifact_name)@.len(),
        reply is None ==> final(artifact_name)@ == old(artifact_name)@ && sends(step, DeveloperTag::ArtifactOpenRequest.spec_code(), seq![job_id as u64]),
        reply matches Some(r) ==> step == Exchange::Done(artifact_result(*r, old(artifact_name)@.len())),
        reply matches Some(r) ==> (step matches Exchange::Done(Ok((_, _, _, n))) ==> bytes_written(old(artifact_name)@, final(artifact_name)@, *r, 4, n as nat)),
        reply matches Some(r) ==> (step matches Exchange::Done(Err(_)) ==> final(artifact_name)@ == old(artifact_name)@),
{
    let r = match reply {
        None => return Exchange::Send(request1(DeveloperTag::ArtifactOpenRequest.code(), job_id as u64)),
        Some(r) => r,
    };
    match dev_status_of(r, DeveloperTag::ArtifactOpenReply.code(), 4) {
        Err(e) => return Exchange::Done(Err(e)),
        Ok(false) => return Exchange::Done(Err(developer_status_error(DeveloperStatus::NotFound))),
        Ok(true) => {},
    }
    if r.handle_count == 0 {
        return Exchange::Done(Err(Error::InvalidArgument));
    }
    let n = r.words[3] as usize;
    if n > artifact_name.len() {
        return Exchange::Done(Err(Error::BufferTooSmall));
    }
    match unpack_from(r, 4, n, artifact_name) {
        Ok(()) => Exchange::Done(Ok((r.handles[0], r.words[1] as usize, developer_artifact_format_from_word(r.words[2]), n))),
        Err(e) => Exchange::Done(Err(e)),
    }
}

} // verus!
