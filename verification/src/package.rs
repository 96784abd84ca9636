//! Package-service protocol: installed packages and their versions, the
//! catalog, provenance, update policy, maintenance and repositories. The
//! caller attaches a reply channel (send right) to each request and reads
//! the reply from it.
//!
//! Replies that carry several texts pack them back to back into one byte
//! stream after their header words; each text is copied into its own
//! buffer, which must hold it.
use vstd::prelude::*;
use vstd::string::StringSliceAdditionalSpecFns;

use crate::abi::{PackageChannel, PackageMaintenanceAction, PackageRepositoryTrustMode, PackageRing, PackageStatus, PackageTag, ServiceId};
use crate::decode::{
    package_channel_from_word, package_repo_sync_state_from_word, package_ring_from_word,
    package_status_error, package_status_from_word, package_trust_mode_from_word,
    package_trust_state_from_word, service_id_from_word,
};
use crate::error::{Error, Result};
use crate::message::{
    copy_stream, has_shape, packed_words, reply_shape, reply_wf, request1,
    request_with_bytes, segment_written, sends, words_for, Exchange,
    RawMessage, IPC_MAX_WORDS,
};
use crate::types::{
    PackageCatalogEntry, PackageInfo, PackageListEntry, PackageMaintenanceInfo, PackagePolicyInfo,
    PackageProvenanceInfo, PackageRepositoryInfo, PackageRepositorySyncInfo,
};

verus! {

/// What a package reply decodes to when its status must be success.
pub open spec fn package_result(r: RawMessage, tag: u32, min: u32) -> Result<()> {
    if !reply_shape(r, tag, min) {
        Err(Error::InvalidArgument)
    } else if package_status_from_word(r.words[0]) == PackageStatus::Success {
        Ok(())
    } else {
        Err(package_status_error(package_status_from_word(r.words[0])))
    }
}

fn package_check(r: &RawMessage, tag: u32, min: u32) -> (res: Result<()>)
    ensures
        res == package_result(*r, tag, min),
{
    if !has_shape(r, tag, min) {
        return Err(Error::InvalidArgument);
    }
    let status = package_status_from_word(r.words[0]);
    if status == PackageStatus::Success {
        Ok(())
    } else {
        Err(package_status_error(status))
    }
}

/// A listing reply that is past the end of the listing.
pub open spec fn at_end(r: RawMessage, tag: u32, min: u32) -> bool {
    reply_shape(r, tag, min) && package_status_from_word(r.words[0]) == PackageStatus::End
}

/// The reply's words after `start` carry exactly `total` bytes.
pub open spec fn carries_exactly(r: RawMessage, start: int, total: int) -> bool {
    r.word_count == start + words_for(total as nat)
}

/// Checks that the words after `start` carry exactly the texts whose
/// lengths are the words at `at .. at + count`; the outcome is their total.
fn texts_total(r: &RawMessage, start: usize, at: usize, count: usize) -> (res: Option<usize>)
    requires
        r.wf(),
        start <= 16,
        at + count <= 16,
        count <= 5,
    ensures
        res is Some <==> carries_exactly(*r, start as int, text_sum(*r, at as int, count as int)),
        res matches Some(t) ==> t == text_sum(*r, at as int, count as int) && t <= 8 * (16 - start),
{
    let mut total: usize = 0;
    let mut k: usize = 0;
    while k < count
        invariant
            r.wf(),
            start <= 16,
            at + count <= 16,
            k <= count,
            count <= 5,
            total == text_sum(*r, at as int, k as int),
            total <= 128 * k,
        decreases count - k,
    {
        let len = r.words[at + k] as usize;
        if len > 128 {
            proof {
                lemma_text_sum_grows(*r, at as int, k as int + 1, count as int);
                lemma_text_sum_nonneg(*r, at as int, k as int);
                assert(text_sum(*r, at as int, k as int + 1) == text_sum(*r, at as int, k as int) + len);
                assert(text_sum(*r, at as int, count as int) > 128);
                assert(words_for(text_sum(*r, at as int, count as int) as nat) > 16);
            }
            return None;
        }
        total = total + len;
        k = k + 1;
    }
    let words: usize = total / 8 + if total % 8 == 0 { 0 } else { 1 };
    if r.word_count as usize == start + words {
        Some(total)
    } else {
        None
    }
}

/// The total length of the `count` texts whose lengths are the words at
/// `at ..`.
pub open spec fn text_sum(r: RawMessage, at: int, count: int) -> int
    decreases count,
{
    if count <= 0 {
        0
    } else {
        text_sum(r, at, count - 1) + (r.words[at + count - 1] as usize) as int
    }
}

proof fn lemma_text_sum_grows(r: RawMessage, at: int, k: int, count: int)
    requires
        0 <= k <= count,
    ensures
        text_sum(r, at, count) >= text_sum(r, at, k),
    decreases count - k,
{
    if k < count {
        lemma_text_sum_grows(r, at, k + 1, count);
    }
}

proof fn lemma_text_sum_nonneg(r: RawMessage, at: int, count: int)
    ensures
        text_sum(r, at, count) >= 0,
    decreases count,
{
    if count > 0 {
        lemma_text_sum_nonneg(r, at, count - 1);
    }
}

/// The length word at `k` of a reply.
pub open spec fn len_at(r: RawMessage, k: int) -> nat {
    (r.words[k] as usize) as nat
}

/// The package entry a listing reply carries: flags of word 2 (bit 0
/// installed, bit 1 active, bit 2 rollback available).
pub open spec fn list_entry_of(r: RawMessage) -> PackageListEntry {
    PackageListEntry {
        service_id: service_id_from_word(r.words[1]),
        installed: r.words[2] & 1 != 0,
        active: r.words[2] & 2 != 0,
        rollback_available: r.words[2] & 4 != 0,
        repository_versions: r.words[3] as u32,
        installed_version_len: r.words[4] as usize,
        active_version_len: r.words[5] as usize,
    }
}

/// A listing reply whose entry is decoded: success, and the words carry
/// exactly the two version texts.
pub open spec fn list_decodes(r: RawMessage) -> bool {
    &&& package_result(r, PackageTag::ListReply.spec_code(), 7) is Ok
    &&& carries_exactly(r, 7, text_sum(r, 4, 2))
}

/// A listing reply whose texts are copied out.
pub open spec fn list_copies(r: RawMessage) -> bool {
    list_decodes(r) && !at_end(r, PackageTag::ListReply.spec_code(), 7)
}

/// What a listing reply decodes to: `None` past the end; `InvalidArgument`
/// when the words do not carry exactly the version texts.
pub open spec fn list_result(r: RawMessage) -> Result<Option<PackageListEntry>> {
    if at_end(r, PackageTag::ListReply.spec_code(), 7) {
        Ok(None)
    } else {
        match package_result(r, PackageTag::ListReply.spec_code(), 7) {
            Err(e) => Err(e),
            Ok(_) => if list_decodes(r) { Ok(Some(list_entry_of(r))) } else { Err(Error::InvalidArgument) },
        }
    }
}

/// Step of reading entry `index` of the installed-package listing; the
/// installed and active version texts go to the two buffers.
pub fn package_list(index: usize, installed_version: &mut [u8], active_version: &mut [u8], reply: Option<&RawMessage>) -> (step: Exchange<Option<PackageListEntry>>)
    requires
        reply_wf(reply),
        reply matches Some(r) ==> (list_decodes(*r) ==> len_at(*r, 4) <= old(installed_version)@.len() && len_at(*r, 5) <= old(active_version)@.len()),
    ensures
        final(installed_version)@.len() == old(installed_version)@.len(),
        final(active_version)@.len() == old(active_version)@.len(),
        reply is None ==> sends(step, PackageTag::ListRequest.spec_code(), seq![index as u64]),
        reply matches Some(r) ==> step == Exchange::Done(list_result(*r)),
        reply matches Some(r) ==> (list_copies(*r) ==> {
            &&& segment_written(old(installed_version)@, final(installed_version)@, *r, 7, 0, len_at(*r, 4))
            &&& segment_written(old(active_version)@, final(active_version)@, *r, 7, len_at(*r, 4), len_at(*r, 5))
        }),
        !(reply matches Some(r) && list_copies(*r)) ==> {
            &&& final(installed_version)@ == old(installed_version)@
            &&& final(active_version)@ == old(active_version)@
        },
{
    let r = match reply {
        None => return Exchange::Send(request1(PackageTag::ListRequest.code(), index as u64)),
        Some(r) => r,
    };
    if has_shape(r, PackageTag::ListReply.code(), 7) && package_status_from_word(r.words[0]) == PackageStatus::End {
        return Exchange::Done(Ok(None));
    }
    match package_check(r, PackageTag::ListReply.code(), 7) {
        Ok(()) => {},
        Err(e) => return Exchange::Done(Err(e)),
    }
    if texts_total(r, 7, 4, 2).is_none() {
        return Exchange::Done(Err(Error::InvalidArgument));
    }
    proof {
        reveal_with_fuel(text_sum, 3);
    }
    let installed_len = r.words[4] as usize;
    let active_len = r.words[5] as usize;
    copy_stream(r, 7, 0, installed_len, installed_version);
    copy_stream(r, 7, installed_len, active_len, active_version);
    Exchange::Done(Ok(Some(PackageListEntry {
        service_id: service_id_from_word(r.words[1]),
        installed: r.words[2] & 1 != 0,
        active: r.words[2] & 2 != 0,
        rollback_available: r.words[2] & 4 != 0,
        repository_versions: r.words[3] as u32,
        installed_version_len: installed_len,
        active_version_len: active_len,
    })))
}

} // verus!

verus! {

/// The package information an info reply carries.
pub open spec fn info_of(r: RawMessage) -> PackageInfo {
    PackageInfo {
        installed: r.words[1] & 1 != 0,
        active: r.words[1] & 2 != 0,
        rollback_available: r.words[1] & 4 != 0,
        repository_versions: r.words[2] as u32,
        installed_version_len: r.words[3] as usize,
        active_version_len: r.words[4] as usize,
        rollback_version_len: r.words[5] as usize,
        latest_version_len: r.words[6] as usize,
    }
}

/// An info reply whose texts are copied out: success, and the words carry
/// exactly the four version texts.
pub open spec fn info_decodes(r: RawMessage) -> bool {
    package_result(r, PackageTag::InfoReply.spec_code(), 8) is Ok && carries_exactly(r, 8, text_sum(r, 3, 4))
}

/// What an info reply decodes to.
pub open spec fn info_result(r: RawMessage) -> Result<PackageInfo> {
    match package_result(r, PackageTag::InfoReply.spec_code(), 8) {
        Err(e) => Err(e),
        Ok(_) => if info_decodes(r) { Ok(info_of(r)) } else { Err(Error::InvalidArgument) },
    }
}

/// Step of reading the versions of `service_id`: installed, active,
/// rollback and latest, each into its buffer.
pub fn package_info(service_id: ServiceId, installed_version: &mut [u8], active_version: &mut [u8], rollback_version: &mut [u8], latest_version: &mut [u8], reply: Option<&RawMessage>) -> (step: Exchange<PackageInfo>)
    requires
        reply_wf(reply),
        reply matches Some(r) ==> (info_decodes(*r) ==> len_at(*r, 3) <= old(installed_version)@.len() && len_at(*r, 4) <= old(active_version)@.len()
            && len_at(*r, 5) <= old(rollback_version)@.len() && len_at(*r, 6) <= old(latest_version)@.len()),
    ensures
        final(installed_version)@.len() == old(installed_version)@.len(),
        final(active_version)@.len() == old(active_version)@.len(),
        final(rollback_version)@.len() == old(rollback_version)@.len(),
        final(latest_version)@.len() == old(latest_version)@.len(),
        reply is None ==> sends(step, PackageTag::InfoRequest.spec_code(), seq![service_id.spec_code() as u64]),
        reply matches Some(r) ==> step == Exchange::Done(info_result(*r)),
        reply matches Some(r) ==> (info_decodes(*r) ==> {
            &&& segment_written(old(installed_version)@, final(installed_version)@, *r, 8, 0, len_at(*r, 3))
            &&& segment_written(old(active_version)@, final(active_version)@, *r, 8, len_at(*r, 3), len_at(*r, 4))
            &&& segment_written(old(rollback_version)@, final(rollback_version)@, *r, 8, len_at(*r, 3) + len_at(*r, 4), len_at(*r, 5))
            &&& segment_written(old(latest_version)@, final(latest_version)@, *r, 8, len_at(*r, 3) + len_at(*r, 4) + len_at(*r, 5), len_at(*r, 6))
        }),
        !(reply matches Some(r) && info_decodes(*r)) ==> {
            &&& final(installed_version)@ == old(installed_version)@
            &&& final(active_version)@ == old(active_version)@
            &&& final(rollback_version)@ == old(rollback_version)@
            &&& final(latest_version)@ == old(latest_version)@
        },
{
    let r = match reply {
        None => return Exchange::Send(request1(PackageTag::InfoRequest.code(), service_id.code() as u64)),
        Some(r) => r,
    };
    match package_check(r, PackageTag::InfoReply.code(), 8) {
        Ok(()) => {},
        Err(e) => return Exchange::Done(Err(e)),
    }
    if texts_total(r, 8, 3, 4).is_none() {
        return Exchange::Done(Err(Error::InvalidArgument));
    }
    proof {
        reveal_with_fuel(text_sum, 5);
    }
    let a = r.words[3] as usize;
    let b = r.words[4] as usize;
    let c = r.words[5] as usize;
    let d = r.words[6] as usize;
    copy_stream(r, 8, 0, a, installed_version);
    copy_stream(r, 8, a, b, active_version);
    copy_stream(r, 8, a + b, c, rollback_version);
    copy_stream(r, 8, a + b + c, d, latest_version);
    Exchange::Done(Ok(PackageInfo {
        installed: r.words[1] & 1 != 0,
        active: r.words[1] & 2 != 0,
        rollback_available: r.words[1] & 4 != 0,
        repository_versions: r.words[2] as u32,
        installed_version_len: a,
        active_version_len: b,
        rollback_version_len: c,
        latest_version_len: d,
    }))
}

/// The words of a package change: the service, the version's length, then
/// the version (none for the latest).
pub open spec fn mutation_words(service_id: ServiceId, version: Seq<u8>) -> Seq<u64> {
    seq![service_id.spec_code() as u64, version.len() as u64] + packed_words(version)
}

/// The bytes of an optional version: none when absent.
pub open spec fn version_bytes(version: Option<&str>) -> Seq<u8> {
    match version {
        Some(v) => v.spec_bytes(),
        None => Seq::empty(),
    }
}

fn package_mutation(request_tag: PackageTag, reply_tag: PackageTag, service_id: ServiceId, version: Option<&str>, reply: Option<&RawMessage>) -> (step: Exchange<()>)
    ensures
        reply is None && version_bytes(version).len() > 112 ==> step == Exchange::<()>::Done(Err(Error::BufferTooSmall)),
        reply is None && version_bytes(version).len() <= 112 ==> sends(step, request_tag.spec_code(), mutation_words(service_id, version_bytes(version))),
        reply matches Some(r) ==> step == Exchange::Done(package_result(*r, reply_tag.spec_code(), 1)),
{
    match reply {
        None => {
            let none: [u8; 0] = [];
            let bytes = match version {
                Some(v) => v.as_bytes(),
                None => none.as_slice(),
            };
            assert(bytes@ =~= version_bytes(version));
            if bytes.len() > (IPC_MAX_WORDS - 2) * 8 {
                return Exchange::Done(Err(Error::BufferTooSmall));
            }
            let head: [u64; 2] = [service_id.code() as u64, bytes.len() as u64];
            assert(head@ =~= seq![service_id.spec_code() as u64, bytes@.len() as u64]);
            Exchange::Send(request_with_bytes(request_tag.code(), head.as_slice(), bytes))
        },
        Some(r) => Exchange::Done(package_check(r, reply_tag.code(), 1)),
    }
}

/// Step of installing `service_id`, at `version` or the latest.
pub fn package_install(service_id: ServiceId, version: Option<&str>, reply: Option<&RawMessage>) -> (step: Exchange<()>)
    ensures
        reply is None && version_bytes(version).len() > 112 ==> step == Exchange::<()>::Done(Err(Error::BufferTooSmall)),
        reply is None && version_bytes(version).len() <= 112 ==> sends(step, PackageTag::InstallRequest.spec_code(), mutation_words(service_id, version_bytes(version))),
        reply matches Some(r) ==> step == Exchange::Done(package_result(*r, PackageTag::InstallReply.spec_code(), 1)),
{
    package_mutation(PackageTag::InstallRequest, PackageTag::InstallReply, service_id, version, reply)
}

/// Step of updating `service_id`, to `version` or the latest.
pub fn package_update(service_id: ServiceId, version: Option<&str>, reply: Option<&RawMessage>) -> (step: Exchange<()>)
    ensures
        reply is None && version_bytes(version).len() > 112 ==> step == Exchange::<()>::Done(Err(Error::BufferTooSmall)),
        reply is None && version_bytes(version).len() <= 112 ==> sends(step, PackageTag::UpdateRequest.spec_code(), mutation_words(service_id, version_bytes(version))),
        reply matches Some(r) ==> step == Exchange::Done(package_result(*r, PackageTag::UpdateReply.spec_code(), 1)),
{
    package_mutation(PackageTag::UpdateRequest, PackageTag::UpdateReply, service_id, version, reply)
}

/// Step of removing `service_id`.
pub fn package_remove(service_id: ServiceId, reply: Option<&RawMessage>) -> (step: Exchange<()>)
    ensures
        reply is None ==> sends(step, PackageTag::RemoveRequest.spec_code(), mutation_words(service_id, Seq::empty())),
        reply matches Some(r) ==> step == Exchange::Done(package_result(*r, PackageTag::RemoveReply.spec_code(), 1)),
{
    package_mutation(PackageTag::RemoveRequest, PackageTag::RemoveReply, service_id, None, reply)
}

/// Step of rolling `service_id` back to its previous version.
pub fn package_rollback(service_id: ServiceId, reply: Option<&RawMessage>) -> (step: Exchange<()>)
    ensures
        reply is None ==> sends(step, PackageTag::RollbackRequest.spec_code(), mutation_words(service_id, Seq::empty())),
        reply matches Some(r) ==> step == Exchange::Done(package_result(*r, PackageTag::RollbackReply.spec_code(), 1)),
{
    package_mutation(PackageTag::RollbackRequest, PackageTag::RollbackReply, service_id, None, reply)
}

/// A history reply whose texts are copied out.
pub open spec fn history_decodes(r: RawMessage) -> bool {
    package_result(r, PackageTag::HistoryReply.spec_code(), 4) is Ok && carries_exactly(r, 4, text_sum(r, 1, 2))
}

/// What a history reply decodes to: the lengths of the current and the
/// previous version.
pub open spec fn history_result(r: RawMessage) -> Result<(usize, usize)> {
    match package_result(r, PackageTag::HistoryReply.spec_code(), 4) {
        Err(e) => Err(e),
        Ok(_) => if history_decodes(r) { Ok((r.words[1] as usize, r.words[2] as usize)) } else { Err(Error::InvalidArgument) },
    }
}

/// Step of reading the current and previous versions of `service_id`.
pub fn package_history(service_id: ServiceId, current_version: &mut [u8], previous_version: &mut [u8], reply: Option<&RawMessage>) -> (step: Exchange<(usize, usize)>)
    requires
        reply_wf(reply),
        reply matches Some(r) ==> (history_decodes(*r) ==> len_at(*r, 1) <= old(current_version)@.len() && len_at(*r, 2) <= old(previous_version)@.len()),
    ensures
        final(current_version)@.len() == old(current_version)@.len(),
        final(previous_version)@.len() == old(previous_version)@.len(),
        reply is None ==> sends(step, PackageTag::HistoryRequest.spec_code(), seq![service_id.spec_code() as u64]),
        reply matches Some(r) ==> step == Exchange::Done(history_result(*r)),
        reply matches Some(r) ==> (history_decodes(*r) ==> {
            &&& segment_written(old(current_version)@, final(current_version)@, *r, 4, 0, len_at(*r, 1))
            &&& segment_written(old(previous_version)@, final(previous_version)@, *r, 4, len_at(*r, 1), len_at(*r, 2))
        }),
        !(reply matches Some(r) && history_decodes(*r)) ==> {
            &&& final(current_version)@ == old(current_version)@
            &&& final(previous_version)@ == old(previous_version)@
        },
{
    let r = match reply {
        None => return Exchange::Send(request1(PackageTag::HistoryRequest.code(), service_id.code() as u64)),
        Some(r) => r,
    };
    match package_check(r, PackageTag::HistoryReply.code(), 4) {
        Ok(()) => {},
        Err(e) => return Exchange::Done(Err(e)),
    }
    if texts_total(r, 4, 1, 2).is_none() {
        return Exchange::Done(Err(Error::InvalidArgument));
    }
    proof {
        reveal_with_fuel(text_sum, 3);
    }
    let a = r.words[1] as usize;
    let b = r.words[2] as usize;
    copy_stream(r, 4, 0, a, current_version);
    copy_stream(r, 4, a, b, previous_version);
    Exchange::Done(Ok((a, b)))
}

} // verus!

verus! {

/// The catalog entry a catalog reply carries.
pub open spec fn catalog_entry_of(r: RawMessage) -> PackageCatalogEntry {
    PackageCatalogEntry {
        service_id: service_id_from_word(r.words[1]),
        repo_index: r.words[3] as u32,
        installed: r.words[2] & 1 != 0,
        active: r.words[2] & 2 != 0,
        rollback_available: r.words[2] & 4 != 0,
        category_len: r.words[5] as usize,
        summary_len: r.words[6] as usize,
        latest_version_len: r.words[4] as usize,
    }
}

/// A catalog reply whose texts are copied out.
pub open spec fn catalog_copies(r: RawMessage) -> bool {
    &&& !at_end(r, PackageTag::CatalogReply.spec_code(), 7)
    &&& package_result(r, PackageTag::CatalogReply.spec_code(), 7) is Ok
    &&& carries_exactly(r, 7, text_sum(r, 4, 3))
}

/// What a catalog reply decodes to: `None` past the end of the catalog.
pub open spec fn catalog_result(r: RawMessage) -> Result<Option<PackageCatalogEntry>> {
    if at_end(r, PackageTag::CatalogReply.spec_code(), 7) {
        Ok(None)
    } else {
        match package_result(r, PackageTag::CatalogReply.spec_code(), 7) {
            Err(e) => Err(e),
            Ok(_) => if catalog_copies(r) { Ok(Some(catalog_entry_of(r))) } else { Err(Error::InvalidArgument) },
        }
    }
}

/// Step of reading entry `index` of the catalog: its latest version,
/// category and summary, each into its buffer.
pub fn package_catalog(index: usize, latest_version: &mut [u8], category: &mut [u8], summary: &mut [u8], reply: Option<&RawMessage>) -> (step: Exchange<Option<PackageCatalogEntry>>)
    requires
        reply_wf(reply),
        reply matches Some(r) ==> (catalog_copies(*r) ==> len_at(*r, 4) <= old(latest_version)@.len() && len_at(*r, 5) <= old(category)@.len()
            && len_at(*r, 6) <= old(summary)@.len()),
    ensures
        final(latest_version)@.len() == old(latest_version)@.len(),
        final(category)@.len() == old(category)@.len(),
        final(summary)@.len() == old(summary)@.len(),
        reply is None ==> sends(step, PackageTag::CatalogRequest.spec_code(), seq![index as u64]),
        reply matches Some(r) ==> step == Exchange::Done(catalog_result(*r)),
        reply matches Some(r) ==> (catalog_copies(*r) ==> {
            &&& segment_written(old(latest_version)@, final(latest_version)@, *r, 7, 0, len_at(*r, 4))
            &&& segment_written(old(category)@, final(category)@, *r, 7, len_at(*r, 4), len_at(*r, 5))
            &&& segment_written(old(summary)@, final(summary)@, *r, 7, len_at(*r, 4) + len_at(*r, 5), len_at(*r, 6))
        }),
        !(reply matches Some(r) && catalog_copies(*r)) ==> {
            &&& final(latest_version)@ == old(latest_version)@
            &&& final(category)@ == old(category)@
            &&& final(summary)@ == old(summary)@
        },
{
    let r = match reply {
        None => return Exchange::Send(request1(PackageTag::CatalogRequest.code(), index as u64)),
        Some(r) => r,
    };
    if has_shape(r, PackageTag::CatalogReply.code(), 7) && package_status_from_word(r.words[0]) == PackageStatus::End {
        return Exchange::Done(Ok(None));
    }
    match package_check(r, PackageTag::CatalogReply.code(), 7) {
        Ok(()) => {},
        Err(e) => return Exchange::Done(Err(e)),
    }
    if texts_total(r, 7, 4, 3).is_none() {
        return Exchange::Done(Err(Error::InvalidArgument));
    }
    proof {
        reveal_with_fuel(text_sum, 4);
    }
    let a = r.words[4] as usize;
    let b = r.words[5] as usize;
    let c = r.words[6] as usize;
    copy_stream(r, 7, 0, a, latest_version);
    copy_stream(r, 7, a, b, category);
    copy_stream(r, 7, a + b, c, summary);
    Exchange::Done(Ok(Some(PackageCatalogEntry {
        service_id: service_id_from_word(r.words[1]),
        repo_index: r.words[3] as u32,
        installed: r.words[2] & 1 != 0,
        active: r.words[2] & 2 != 0,
        rollback_available: r.words[2] & 4 != 0,
        category_len: b,
        summary_len: c,
        latest_version_len: a,
    })))
}

/// The provenance a provenance reply carries. Word 2 packs the trust state
/// (byte 0), channel (byte 1), ring (byte 2) and package flags (byte 3);
/// the reply carries no key fingerprint, which reads as zero.
pub open spec fn provenance_of(r: RawMessage) -> PackageProvenanceInfo {
    let flags = r.words[2] as u32;
    let package_flags = (flags >> 24) & 0xff;
    PackageProvenanceInfo {
        repo_index: r.words[1] as u32,
        trust_state: package_trust_state_from_word((flags & 0xff) as u64),
        signed_key_fingerprint: 0,
        channel: package_channel_from_word(((flags >> 8) & 0xff) as u64),
        ring: package_ring_from_word(((flags >> 16) & 0xff) as u64),
        installed: package_flags & 1 != 0,
        active: package_flags & 2 != 0,
        rollback_available: package_flags & 4 != 0,
        installed_version_len: r.words[3] as usize,
        active_version_len: r.words[4] as usize,
        rollback_version_len: r.words[5] as usize,
        latest_version_len: r.words[6] as usize,
        source_len: r.words[7] as usize,
    }
}

/// A provenance reply whose texts are copied out.
pub open spec fn provenance_decodes(r: RawMessage) -> bool {
    package_result(r, PackageTag::ProvenanceReply.spec_code(), 8) is Ok && carries_exactly(r, 8, text_sum(r, 3, 5))
}

/// What a provenance reply decodes to.
pub open spec fn provenance_result(r: RawMessage) -> Result<PackageProvenanceInfo> {
    match package_result(r, PackageTag::ProvenanceReply.spec_code(), 8) {
        Err(e) => Err(e),
        Ok(_) => if provenance_decodes(r) { Ok(provenance_of(r)) } else { Err(Error::InvalidArgument) },
    }
}

/// Step of reading where `service_id` comes from: its installed, active,
/// rollback and latest versions and its source, each into its buffer.
pub fn package_provenance(service_id: ServiceId, installed_version: &mut [u8], active_version: &mut [u8], rollback_version: &mut [u8], latest_version: &mut [u8], source: &mut [u8], reply: Option<&RawMessage>) -> (step: Exchange<PackageProvenanceInfo>)
    requires
        reply_wf(reply),
        reply matches Some(r) ==> (provenance_decodes(*r) ==> len_at(*r, 3) <= old(installed_version)@.len() && len_at(*r, 4) <= old(active_version)@.len()
            && len_at(*r, 5) <= old(rollback_version)@.len() && len_at(*r, 6) <= old(latest_version)@.len() && len_at(*r, 7) <= old(source)@.len()),
    ensures
        final(installed_version)@.len() == old(installed_version)@.len(),
        final(active_version)@.len() == old(active_version)@.len(),
        final(rollback_version)@.len() == old(rollback_version)@.len(),
        final(latest_version)@.len() == old(latest_version)@.len(),
        final(source)@.len() == old(source)@.len(),
        reply is None ==> sends(step, PackageTag::ProvenanceRequest.spec_code(), seq![service_id.spec_code() as u64]),
        reply matches Some(r) ==> step == Exchange::Done(provenance_result(*r)),
        reply matches Some(r) ==> (provenance_decodes(*r) ==> {
            let (a, b, c, d) = (len_at(*r, 3), len_at(*r, 4), len_at(*r, 5), len_at(*r, 6));
            &&& segment_written(old(installed_version)@, final(installed_version)@, *r, 8, 0, a)
            &&& segment_written(old(active_version)@, final(active_version)@, *r, 8, a, b)
            &&& segment_written(old(rollback_version)@, final(rollback_version)@, *r, 8, a + b, c)
            &&& segment_written(old(latest_version)@, final(latest_version)@, *r, 8, a + b + c, d)
            &&& segment_written(old(source)@, final(source)@, *r, 8, a + b + c + d, len_at(*r, 7))
        }),
        !(reply matches Some(r) && provenance_decodes(*r)) ==> {
            &&& final(installed_version)@ == old(installed_version)@
            &&& final(active_version)@ == old(active_version)@
            &&& final(rollback_version)@ == old(rollback_version)@
            &&& final(latest_version)@ == old(latest_version)@
            &&& final(source)@ == old(source)@
        },
{
    let r = match reply {
        None => return Exchange::Send(request1(PackageTag::ProvenanceRequest.code(), service_id.code() as u64)),
        Some(r) => r,
    };
    match package_check(r, PackageTag::ProvenanceReply.code(), 8) {
        Ok(()) => {},
        Err(e) => return Exchange::Done(Err(e)),
    }
    if texts_total(r, 8, 3, 5).is_none() {
        return Exchange::Done(Err(Error::InvalidArgument));
    }
    proof {
        reveal_with_fuel(text_sum, 6);
    }
    let a = r.words[3] as usize;
    let b = r.words[4] as usize;
    let c = r.words[5] as usize;
    let d = r.words[6] as usize;
    let e = r.words[7] as usize;
    copy_stream(r, 8, 0, a, installed_version);
    copy_stream(r, 8, a, b, active_version);
    copy_stream(r, 8, a + b, c, rollback_version);
    copy_stream(r, 8, a + b + c, d, latest_version);
    copy_stream(r, 8, a + b + c + d, e, source);
    let flags = r.words[2] as u32;
    let package_flags = (flags >> 24) & 0xff;
    Exchange::Done(Ok(PackageProvenanceInfo {
        repo_index: r.words[1] as u32,
        trust_state: package_trust_state_from_word((flags & 0xff) as u64),
        signed_key_fingerprint: 0,
        channel: package_channel_from_word(((flags >> 8) & 0xff) as u64),
        ring: package_ring_from_word(((flags >> 16) & 0xff) as u64),
        installed: package_flags & 1 != 0,
        active: package_flags & 2 != 0,
        rollback_available: package_flags & 4 != 0,
        installed_version_len: a,
        active_version_len: b,
        rollback_version_len: c,
        latest_version_len: d,
        source_len: e,
    }))
}

/// A policy reply whose pinned version is copied out.
pub open spec fn policy_decodes(r: RawMessage) -> bool {
    package_result(r, PackageTag::PolicyReply.spec_code(), 4) is Ok && carries_exactly(r, 4, text_sum(r, 3, 1))
}

/// What a policy reply decodes to: channel, ring and the pinned version's
/// length.
pub open spec fn policy_result(r: RawMessage) -> Result<PackagePolicyInfo> {
    match package_result(r, PackageTag::PolicyReply.spec_code(), 4) {
        Err(e) => Err(e),
        Ok(_) => if policy_decodes(r) {
            Ok(PackagePolicyInfo {
                channel: package_channel_from_word(r.words[1]),
                ring: package_ring_from_word(r.words[2]),
                pinned_version_len: r.words[3] as usize,
            })
        } else {
            Err(Error::InvalidArgument)
        },
    }
}

/// Step of reading the update policy of `service_id`, its pinned version
/// into `pinned_version`.
pub fn package_policy(service_id: ServiceId, pinned_version: &mut [u8], reply: Option<&RawMessage>) -> (step: Exchange<PackagePolicyInfo>)
    requires
        reply_wf(reply),
        reply matches Some(r) ==> (policy_decodes(*r) ==> len_at(*r, 3) <= old(pinned_version)@.len()),
    ensures
        final(pinned_version)@.len() == old(pinned_version)@.len(),
        reply is None ==> sends(step, PackageTag::PolicyRequest.spec_code(), seq![service_id.spec_code() as u64]),
        reply matches Some(r) ==> step == Exchange::Done(policy_result(*r)),
        reply matches Some(r) ==> (policy_decodes(*r) ==> segment_written(old(pinned_version)@, final(pinned_version)@, *r, 4, 0, len_at(*r, 3))),
        !(reply matches Some(r) && policy_decodes(*r)) ==> final(pinned_version)@ == old(pinned_version)@,
{
    let r = match reply {
        None => return Exchange::Send(request1(PackageTag::PolicyRequest.code(), service_id.code() as u64)),
        Some(r) => r,
    };
    match package_check(r, PackageTag::PolicyReply.code(), 4) {
        Ok(()) => {},
        Err(e) => return Exchange::Done(Err(e)),
    }
    if texts_total(r, 4, 3, 1).is_none() {
        return Exchange::Done(Err(Error::InvalidArgument));
    }
    proof {
        reveal_with_fuel(text_sum, 2);
    }
    let n = r.words[3] as usize;
    copy_stream(r, 4, 0, n, pinned_version);
    Exchange::Done(Ok(PackagePolicyInfo {
        channel: package_channel_from_word(r.words[1]),
        ring: package_ring_from_word(r.words[2]),
        pinned_version_len: n,
    }))
}

/// The words of a policy change: service, channel, ring, the pinned
/// version's length, then the pinned version.
pub open spec fn policy_set_words(service_id: ServiceId, channel: PackageChannel, ring: PackageRing, pin: Seq<u8>) -> Seq<u64> {
    seq![service_id.spec_code() as u64, channel.spec_code() as u64, ring.spec_code() as u64, pin.len() as u64] + packed_words(pin)
}

/// Step of setting the update policy of `service_id`: its channel, ring and
/// optional pinned version.
pub fn package_policy_set(service_id: ServiceId, channel: PackageChannel, ring: PackageRing, pinned_version: Option<&str>, reply: Option<&RawMessage>) -> (step: Exchange<()>)
    ensures
        reply is None && version_bytes(pinned_version).len() > 96 ==> step == Exchange::<()>::Done(Err(Error::BufferTooSmall)),
        reply is None && version_bytes(pinned_version).len() <= 96 ==> sends(step, PackageTag::PolicySetRequest.spec_code(),
            policy_set_words(service_id, channel, ring, version_bytes(pinned_version))),
        reply matches Some(r) ==> step == Exchange::Done(package_result(*r, PackageTag::PolicySetReply.spec_code(), 1)),
{
    match reply {
        None => {
            let none: [u8; 0] = [];
            let pin = match pinned_version {
                Some(v) => v.as_bytes(),
                None => none.as_slice(),
            };
            assert(pin@ =~= version_bytes(pinned_version));
            if pin.len() > (IPC_MAX_WORDS - 4) * 8 {
                return Exchange::Done(Err(Error::BufferTooSmall));
            }
            let head: [u64; 4] = [service_id.code() as u64, channel.code() as u64, ring.code() as u64, pin.len() as u64];
            assert(head@ =~= seq![service_id.spec_code() as u64, channel.spec_code() as u64, ring.spec_code() as u64, pin@.len() as u64]);
            Exchange::Send(request_with_bytes(PackageTag::PolicySetRequest.code(), head.as_slice(), pin))
        },
        Some(r) => Exchange::Done(package_check(r, PackageTag::PolicySetReply.code(), 1)),
    }
}

/// Step of running the maintenance `action`; the outcome counts the entries
/// repaired and garbage-collected.
pub fn package_maintenance(action: PackageMaintenanceAction, reply: Option<&RawMessage>) -> (step: Exchange<PackageMaintenanceInfo>)
    ensures
        reply is None ==> sends(step, PackageTag::MaintenanceRequest.spec_code(), seq![action.spec_code() as u64]),
        reply matches Some(r) ==> step == Exchange::Done(match package_result(*r, PackageTag::MaintenanceReply.spec_code(), 3) {
            Ok(_) => Ok::<PackageMaintenanceInfo, Error>(PackageMaintenanceInfo { action, repaired_entries: r.words[1] as u32, garbage_collected_entries: r.words[2] as u32 }),
            Err(e) => Err(e),
        }),
{
    match reply {
        None => Exchange::Send(request1(PackageTag::MaintenanceRequest.code(), action.code() as u64)),
        Some(r) => Exchange::Done(
            match package_check(r, PackageTag::MaintenanceReply.code(), 3) {
                Ok(()) => Ok(PackageMaintenanceInfo { action, repaired_entries: r.words[1] as u32, garbage_collected_entries: r.words[2] as u32 }),
                Err(e) => Err(e),
            },
        ),
    }
}

} // verus!

verus! {

/// The repository a repository-listing reply carries. Word 3 packs the
/// trust mode (byte 0), sync state (byte 1), channel (byte 2), ring (low six
/// bits of byte 3) and the enabled flag (bit 30).
pub open spec fn repository_of(r: RawMessage) -> PackageRepositoryInfo {
    let flags = r.words[3] as u32;
    PackageRepositoryInfo {
        repo_index: r.words[1] as u32,
        package_count: r.words[2] as u32,
        trust_mode: package_trust_mode_from_word((flags & 0xff) as u64),
        sync_state: package_repo_sync_state_from_word(((flags >> 8) & 0xff) as u64),
        channel: package_channel_from_word(((flags >> 16) & 0xff) as u64),
        ring: package_ring_from_word(((flags >> 24) & 0x3f) as u64),
        enabled: flags & 0x4000_0000 != 0,
        pinned_digest: r.words[6],
        last_digest: r.words[7],
        name_len: r.words[4] as usize,
        url_len: r.words[5] as usize,
    }
}

/// A repository-listing reply whose texts are copied out.
pub open spec fn repository_copies(r: RawMessage) -> bool {
    &&& !at_end(r, PackageTag::RepositoryListReply.spec_code(), 8)
    &&& package_result(r, PackageTag::RepositoryListReply.spec_code(), 8) is Ok
    &&& carries_exactly(r, 8, text_sum(r, 4, 2))
}

/// What a repository-listing reply decodes to: `None` past the end.
pub open spec fn repository_result(r: RawMessage) -> Result<Option<PackageRepositoryInfo>> {
    if at_end(r, PackageTag::RepositoryListReply.spec_code(), 8) {
        Ok(None)
    } else {
        match package_result(r, PackageTag::RepositoryListReply.spec_code(), 8) {
            Err(e) => Err(e),
            Ok(_) => if repository_copies(r) { Ok(Some(repository_of(r))) } else { Err(Error::InvalidArgument) },
        }
    }
}

/// Step of reading repository `index`: its name and URL, each into its
/// buffer.
pub fn package_repository_list(index: usize, name: &mut [u8], url: &mut [u8], reply: Option<&RawMessage>) -> (step: Exchange<Option<PackageRepositoryInfo>>)
    requires
        reply_wf(reply),
        reply matches Some(r) ==> (repository_copies(*r) ==> len_at(*r, 4) <= old(name)@.len() && len_at(*r, 5) <= old(url)@.len()),
    ensures
        final(name)@.len() == old(name)@.len(),
        final(url)@.len() == old(url)@.len(),
        reply is None ==> sends(step, PackageTag::RepositoryListRequest.spec_code(), seq![index as u64]),
        reply matches Some(r) ==> step == Exchange::Done(repository_result(*r)),
        reply matches Some(r) ==> (repository_copies(*r) ==> {
            &&& segment_written(old(name)@, final(name)@, *r, 8, 0, len_at(*r, 4))
            &&& segment_written(old(url)@, final(url)@, *r, 8, len_at(*r, 4), len_at(*r, 5))
        }),
        !(reply matches Some(r) && repository_copies(*r)) ==> final(name)@ == old(name)@ && final(url)@ == old(url)@,
{
    let r = match reply {
        None => return Exchange::Send(request1(PackageTag::RepositoryListRequest.code(), index as u64)),
        Some(r) => r,
    };
    if has_shape(r, PackageTag::RepositoryListReply.code(), 8) && package_status_from_word(r.words[0]) == PackageStatus::End {
        return Exchange::Done(Ok(None));
    }
    match package_check(r, PackageTag::RepositoryListReply.code(), 8) {
        Ok(()) => {},
        Err(e) => return Exchange::Done(Err(e)),
    }
    if texts_total(r, 8, 4, 2).is_none() {
        return Exchange::Done(Err(Error::InvalidArgument));
    }
    proof {
        reveal_with_fuel(text_sum, 3);
    }
    let a = r.words[4] as usize;
    let b = r.words[5] as usize;
    copy_stream(r, 8, 0, a, name);
    copy_stream(r, 8, a, b, url);
    let flags = r.words[3] as u32;
    Exchange::Done(Ok(Some(PackageRepositoryInfo {
        repo_index: r.words[1] as u32,
        package_count: r.words[2] as u32,
        trust_mode: package_trust_mode_from_word((flags & 0xff) as u64),
        sync_state: package_repo_sync_state_from_word(((flags >> 8) & 0xff) as u64),
        channel: package_channel_from_word(((flags >> 16) & 0xff) as u64),
        ring: package_ring_from_word(((flags >> 24) & 0x3f) as u64),
        enabled: flags & 0x4000_0000 != 0,
        pinned_digest: r.words[6],
        last_digest: r.words[7],
        name_len: a,
        url_len: b,
    })))
}

/// The first word of a repository add: trust mode, channel in bits 16 to
/// 31, ring in bits 32 to 47, the enabled flag at bit 48.
pub open spec fn repository_word(trust_mode: PackageRepositoryTrustMode, channel: PackageChannel, ring: PackageRing, enabled: bool) -> u64 {
    (trust_mode.spec_code() as u64 + channel.spec_code() as u64 * 0x1_0000 + ring.spec_code() as u64 * 0x1_0000_0000
        + (if enabled { 0x1_0000_0000_0000u64 } else { 0u64 })) as u64
}

/// The words of a repository add: the packed settings, the pinned digest,
/// the two lengths, then the name and the URL back to back.
pub open spec fn repository_add_words(name: Seq<u8>, url: Seq<u8>, trust_mode: PackageRepositoryTrustMode, channel: PackageChannel,
    ring: PackageRing, enabled: bool, pinned_digest: u64) -> Seq<u64> {
    seq![repository_word(trust_mode, channel, ring, enabled), pinned_digest, name.len() as u64, url.len() as u64] + packed_words(name + url)
}

/// Step of adding a repository; `BufferTooSmall` when its name and URL do
/// not fit one message together.
pub fn package_repository_add(name: &str, url: &str, trust_mode: PackageRepositoryTrustMode, channel: PackageChannel, ring: PackageRing,
    enabled: bool, pinned_digest: u64, reply: Option<&RawMessage>) -> (step: Exchange<()>)
    ensures
        reply is None && name.spec_bytes().len() + url.spec_bytes().len() > 96 ==> step == Exchange::<()>::Done(Err(Error::BufferTooSmall)),
        reply is None && name.spec_bytes().len() + url.spec_bytes().len() <= 96 ==> sends(step, PackageTag::RepositoryAddRequest.spec_code(),
            repository_add_words(name.spec_bytes(), url.spec_bytes(), trust_mode, channel, ring, enabled, pinned_digest)),
        reply matches Some(r) ==> step == Exchange::Done(package_result(*r, PackageTag::RepositoryAddReply.spec_code(), 1)),
{
    let r = match reply {
        None => {
            let n = name.as_bytes();
            let u = url.as_bytes();
            if n.len() > 96 || u.len() > 96 - n.len() {
                return Exchange::Done(Err(Error::BufferTooSmall));
            }
            let total = n.len() + u.len();
            let mut combined = [0u8; 96];
            let mut i: usize = 0;
            while i < total
                invariant
                    total == n@.len() + u@.len(),
                    total <= 96,
                    i <= total,
                    forall|k: int| 0 <= k < i ==> combined@[k] == (n@ + u@)[k],
                decreases total - i,
            {
                combined[i] = if i < n.len() { n[i] } else { u[i - n.len()] };
                i = i + 1;
            }
            let (bytes, _) = combined.as_slice().split_at(total);
            assert(bytes@ =~= n@ + u@);
            let flag: u64 = if enabled { 0x1_0000_0000_0000 } else { 0 };
            let w0: u64 = trust_mode.code() as u64 + channel.code() as u64 * 0x1_0000 + ring.code() as u64 * 0x1_0000_0000 + flag;
            let head: [u64; 4] = [w0, pinned_digest, n.len() as u64, u.len() as u64];
            assert(head@ =~= seq![repository_word(trust_mode, channel, ring, enabled), pinned_digest, n@.len() as u64, u@.len() as u64]);
            return Exchange::Send(request_with_bytes(PackageTag::RepositoryAddRequest.code(), head.as_slice(), bytes));
        },
        Some(r) => r,
    };
    Exchange::Done(package_check(r, PackageTag::RepositoryAddReply.code(), 1))
}

/// What a repository sync reply decodes to: the counts of repositories
/// synced and failed; a busy or offline service still reports them.
pub open spec fn sync_result(r: RawMessage) -> Result<PackageRepositorySyncInfo> {
    let status = package_status_from_word(r.words[0]);
    if !reply_shape(r, PackageTag::RepositorySyncReply.spec_code(), 3) {
        Err(Error::InvalidArgument)
    } else if status == PackageStatus::Success || status == PackageStatus::Busy || status == PackageStatus::Offline {
        Ok(PackageRepositorySyncInfo { synced: r.words[1] as u32, failed: r.words[2] as u32 })
    } else {
        Err(package_status_error(status))
    }
}

/// Step of syncing repository `repo_index`, or every repository when `None`.
pub fn package_repository_sync(repo_index: Option<usize>, reply: Option<&RawMessage>) -> (step: Exchange<PackageRepositorySyncInfo>)
    ensures
        reply is None ==> sends(step, PackageTag::RepositorySyncRequest.spec_code(),
            seq![match repo_index { Some(i) => i as u64, None => usize::MAX as u64 }]),
        reply matches Some(r) ==> step == Exchange::Done(sync_result(*r)),
{
    match reply {
        None => Exchange::Send(request1(PackageTag::RepositorySyncRequest.code(), match repo_index {
            Some(i) => i as u64,
            None => usize::MAX as u64,
        })),
        Some(r) => {
            if !has_shape(r, PackageTag::RepositorySyncReply.code(), 3) {
                return Exchange::Done(Err(Error::InvalidArgument));
            }
            let status = package_status_from_word(r.words[0]);
            if status == PackageStatus::Success || status == PackageStatus::Busy || status == PackageStatus::Offline {
                Exchange::Done(Ok(PackageRepositorySyncInfo { synced: r.words[1] as u32, failed: r.words[2] as u32 }))
            } else {
                Exchange::Done(Err(package_status_error(status)))
            }
        },
    }
}

} // verus!
