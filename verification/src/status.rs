//! Status-service protocol: system snapshots, per-service health reports,
//! queries, paged listings and subscriptions to health events.
use vstd::prelude::*;

use crate::abi::{ManagerServicePhase, ServiceId, StatusHealth, StatusResult, StatusTag};
use crate::decode::{manager_phase_from_word, service_id_from_word, status_health_from_word};
use crate::error::{Error, Result};
use crate::message::{has_shape, is_request, reply_shape, reply_wf, request1, request_words, sends, written, Exchange, PageCursor, RawMessage};
use crate::types::StatusServiceInfo;

verus! {

/// Step of taking a system snapshot: three counters, the third read as
/// whatever word 2 of the reply holds.
pub fn status_snapshot(reply: Option<&RawMessage>) -> (step: Exchange<(u64, u64, u64)>)
    ensures
        reply is None ==> sends(step, StatusTag::SnapshotRequest.spec_code(), Seq::empty()),
        reply matches Some(r) ==> step == Exchange::Done(
            if reply_shape(*r, StatusTag::SnapshotReply.spec_code(), 2) {
                Ok::<(u64, u64, u64), Error>((r.words[0], r.words[1], r.words[2]))
            } else {
                Err(Error::InvalidArgument)
            },
        ),
{
    match reply {
        None => Exchange::Send(RawMessage::empty(StatusTag::SnapshotRequest.code())),
        Some(r) => {
            if !has_shape(r, StatusTag::SnapshotReply.code(), 2) {
                return Exchange::Done(Err(Error::InvalidArgument));
            }
            Exchange::Done(Ok((r.words[0], r.words[1], r.words[2])))
        },
    }
}

/// The words of a service health report.
pub open spec fn report_words(service_id: ServiceId, phase: ManagerServicePhase, health: StatusHealth, detail_kind: u32, detail0: u64, detail1: u64, updated_tick: u64) -> Seq<u64> {
    seq![service_id.spec_code() as u64, phase.spec_code() as u64, health.spec_code() as u64, detail_kind as u64, detail0, detail1, updated_tick]
}

/// The message that reports a service's phase and health.
pub fn status_report_service(service_id: ServiceId, phase: ManagerServicePhase, health: StatusHealth, detail_kind: u32, detail0: u64, detail1: u64, updated_tick: u64) -> (m: RawMessage)
    ensures
        is_request(m, StatusTag::ServiceReport.spec_code(), report_words(service_id, phase, health, detail_kind, detail0, detail1, updated_tick)),
{
    let ws: [u64; 7] = [service_id.code() as u64, phase.code() as u64, health.code() as u64, detail_kind as u64, detail0, detail1, updated_tick];
    assert(ws@ =~= report_words(service_id, phase, health, detail_kind, detail0, detail1, updated_tick));
    request_words(StatusTag::ServiceReport.code(), ws.as_slice())
}

/// The service record carried in the seven words at `b`.
pub open spec fn service_info_at(r: RawMessage, b: int) -> StatusServiceInfo {
    StatusServiceInfo {
        service_id: service_id_from_word(r.words[b]),
        phase: manager_phase_from_word(r.words[b + 1]),
        health: status_health_from_word(r.words[b + 2]),
        detail_kind: r.words[b + 3] as u32,
        detail0: r.words[b + 4],
        detail1: r.words[b + 5],
        updated_tick: r.words[b + 6],
    }
}

fn service_info_from(r: &RawMessage, b: usize) -> (info: StatusServiceInfo)
    requires
        b + 7 <= 16,
    ensures
        info == service_info_at(*r, b as int),
{
    StatusServiceInfo {
        service_id: service_id_from_word(r.words[b]),
        phase: manager_phase_from_word(r.words[b + 1]),
        health: status_health_from_word(r.words[b + 2]),
        detail_kind: r.words[b + 3] as u32,
        detail0: r.words[b + 4],
        detail1: r.words[b + 5],
        updated_tick: r.words[b + 6],
    }
}

/// What a service query reply decodes to: `None` for an unknown service; a
/// found service whose reply is shorter than eight words reads as
/// `InvalidArgument`.
pub open spec fn query_result(r: RawMessage) -> Result<Option<StatusServiceInfo>> {
    let code = r.words[0] as u32;
    if !reply_shape(r, StatusTag::ServiceQueryReply.spec_code(), 1) {
        Err(Error::InvalidArgument)
    } else if code == StatusResult::NotFound.spec_code() {
        Ok(None)
    } else if code == StatusResult::Success.spec_code() {
        if r.word_count < 8 { Err(Error::InvalidArgument) } else { Ok(Some(service_info_at(r, 1))) }
    } else {
        Err(Error::InvalidArgument)
    }
}

/// Step of querying the health of `service_id`.
pub fn status_query_service(service_id: ServiceId, reply: Option<&RawMessage>) -> (step: Exchange<Option<StatusServiceInfo>>)
    ensures
        reply is None ==> sends(step, StatusTag::ServiceQueryRequest.spec_code(), seq![service_id.spec_code() as u64]),
        reply matches Some(r) ==> step == Exchange::Done(query_result(*r)),
{
    match reply {
        None => Exchange::Send(request1(StatusTag::ServiceQueryRequest.code(), service_id.code() as u64)),
        Some(r) => {
            if !has_shape(r, StatusTag::ServiceQueryReply.code(), 1) {
                return Exchange::Done(Err(Error::InvalidArgument));
            }
            let code = r.words[0] as u32;
            if code == StatusResult::NotFound.code() {
                Exchange::Done(Ok(None))
            } else if code == StatusResult::Success.code() {
                if r.word_count < 8 {
                    Exchange::Done(Err(Error::InvalidArgument))
                } else {
                    Exchange::Done(Ok(Some(service_info_from(r, 1))))
                }
            } else {
                Exchange::Done(Err(Error::InvalidArgument))
            }
        },
    }
}

/// The entries a listing page carries, when they fit after `loaded` entries
/// in room for `cap` and the reply's words hold them.
pub open spec fn status_page(r: RawMessage, loaded: nat, cap: nat) -> Result<nat> {
    let count = (r.words[0] as usize) as nat;
    if !reply_shape(r, StatusTag::ServiceListReply.spec_code(), 2) {
        Err(Error::InvalidArgument)
    } else if loaded + count > cap || r.word_count < 2 + count * 7 {
        Err(Error::BufferTooSmall)
    } else {
        Ok(count)
    }
}

/// The cursor word that ends a listing.
pub open spec fn last_page() -> usize {
    usize::MAX
}

/// Step of listing every service's health into `entries`, one page at a
/// time. Called without a reply it restarts at page zero; each page's
/// entries are written after those already loaded, and the listing ends
/// with the total when a page names no next page.
pub fn status_list_services(entries: &mut [StatusServiceInfo], cursor: &mut PageCursor, reply: Option<&RawMessage>) -> (step: Exchange<usize>)
    requires
        reply_wf(reply),
        reply is Some ==> old(cursor).filled <= old(entries)@.len(),
    ensures
        final(entries)@.len() == old(entries)@.len(),
        reply is None ==> *final(cursor) == (PageCursor { start: 0, filled: 0 }) && final(entries)@ == old(entries)@
            && sends(step, StatusTag::ServiceListRequest.spec_code(), seq![0u64]),
        reply matches Some(r) ==> status_page(*r, old(cursor).filled as nat, old(entries)@.len()) matches Err(e)
            ==> step == Exchange::<usize>::Done(Err(e)) && final(entries)@ == old(entries)@,
        reply matches Some(r) ==> (status_page(*r, old(cursor).filled as nat, old(entries)@.len()) matches Ok(count) ==> {
            let filled = old(cursor).filled + count;
            let next = r.words[1] as usize;
            &&& written(old(entries)@, final(entries)@, old(cursor).filled as int, count as int, |i: int| service_info_at(*r, 2 + 7 * i))
            &&& final(cursor).filled == filled
            &&& next == last_page() ==> step == Exchange::<usize>::Done(Ok(filled as usize))
            &&& next != last_page() ==> final(cursor).start == next && sends(step, StatusTag::ServiceListRequest.spec_code(), seq![next as u64])
        }),
{
    let r = match reply {
        None => {
            *cursor = PageCursor { start: 0, filled: 0 };
            return Exchange::Send(request1(StatusTag::ServiceListRequest.code(), 0));
        },
        Some(r) => r,
    };
    if !has_shape(r, StatusTag::ServiceListReply.code(), 2) {
        return Exchange::Done(Err(Error::InvalidArgument));
    }
    let count = r.words[0] as usize;
    let loaded = cursor.filled;
    if count > entries.len() - loaded || count > 2 || (r.word_count as usize) < 2 + count * 7 {
        return Exchange::Done(Err(Error::BufferTooSmall));
    }
    let ghost before = entries@;
    assert(entries@.len() == entries.len());
    let mut i: usize = 0;
    while i < count
        invariant
            r.wf(),
            count <= 2,
            2 + count * 7 <= r.word_count,
            loaded + count <= entries@.len(),
            entries@.len() <= usize::MAX,
            entries@.len() == before.len(),
            i <= count,
            forall|k: int| loaded <= k < loaded + i ==> entries@[k] == service_info_at(*r, 2 + 7 * (k - loaded)),
            forall|k: int| 0 <= k < entries@.len() && !(loaded <= k < loaded + i) ==> entries@[k] == before[k],
        decreases count - i,
    {
        entries[loaded + i] = service_info_from(r, 2 + i * 7);
        i = i + 1;
    }
    cursor.filled = loaded + count;
    let next = r.words[1] as usize;
    if next == usize::MAX {
        return Exchange::Done(Ok(loaded + count));
    }
    cursor.start = next;
    Exchange::Send(request1(StatusTag::ServiceListRequest.code(), next as u64))
}

/// What a subscription reply decodes to; on success the caller keeps the
/// subscription channel it sent, otherwise it closes it.
pub open spec fn subscribe_result(r: RawMessage) -> Result<()> {
    let code = r.words[0] as u32;
    if !reply_shape(r, StatusTag::SubscribeReply.spec_code(), 1) {
        Err(Error::InvalidArgument)
    } else if code == StatusResult::Success.spec_code() {
        Ok(())
    } else if code == StatusResult::Busy.spec_code() {
        Err(Error::Busy)
    } else if code == StatusResult::Denied.spec_code() {
        Err(Error::PermissionDenied)
    } else {
        Err(Error::InvalidArgument)
    }
}

/// Step of subscribing to health events of `filter` (every service when
/// `None`). The caller attaches the subscription channel's sending end and
/// a reply channel to the request.
pub fn status_subscribe(filter: Option<ServiceId>, reply: Option<&RawMessage>) -> (step: Exchange<()>)
    ensures
        reply is None ==> sends(step, StatusTag::SubscribeRequest.spec_code(),
            seq![match filter { Some(s) => s.spec_code() as u64, None => 0u64 }]),
        reply matches Some(r) ==> step == Exchange::Done(subscribe_result(*r)),
{
    match reply {
        None => Exchange::Send(request1(StatusTag::SubscribeRequest.code(), match filter {
            Some(s) => s.code() as u64,
            None => 0,
        })),
        Some(r) => {
            if !has_shape(r, StatusTag::SubscribeReply.code(), 1) {
                return Exchange::Done(Err(Error::InvalidArgument));
            }
            let code = r.words[0] as u32;
            if code == StatusResult::Success.code() {
                Exchange::Done(Ok(()))
            } else if code == StatusResult::Busy.code() {
                Exchange::Done(Err(Error::Busy))
            } else if code == StatusResult::Denied.code() {
                Exchange::Done(Err(Error::PermissionDenied))
            } else {
                Exchange::Done(Err(Error::InvalidArgument))
            }
        },
    }
}

/// Decodes a health event received on a subscription channel.
pub fn status_receive_event(event: &RawMessage) -> (res: Result<StatusServiceInfo>)
    ensures
        res == if event.tag == StatusTag::StreamEvent.spec_code() && event.word_count >= 7 {
            Ok::<StatusServiceInfo, Error>(service_info_at(*event, 0))
        } else {
            Err(Error::InvalidArgument)
        },
{
    if event.tag != StatusTag::StreamEvent.code() || event.word_count < 7 {
        return Err(Error::InvalidArgument);
    }
    Ok(service_info_from(event, 0))
}

} // verus!
