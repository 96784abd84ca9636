//! Root-manager protocol, spoken over the bootstrap channel: listing
//! services, reading and restarting one, launching programs and activating
//! services from manifests.
use vstd::prelude::*;
use vstd::string::StringSliceAdditionalSpecFns;

use crate::abi::{ManagerAction, ManagerServicePhase, ManagerStatus, ManagerTag, ServiceId, ServiceImageId};
use crate::decode::{manager_phase_from_word, manager_status_from_word, service_id_from_word};
use crate::error::{Error, Result};
use crate::message::{
    has_shape, packed_words, reply_shape, reply_wf, request1, request2, request_with_bytes, sends, written,
    Exchange, Handle, PageCursor, RawMessage,
};
use crate::rights;
use crate::types::ManagerServiceInfo;

verus! {

/// A handle handed to a launched program at startup, with its rights.
#[derive(Clone, Copy, Debug, Eq, PartialEq)]
pub struct StartupHandle {
    pub handle: Handle,
    pub rights: u64,
}

/// The error a root-manager status stands for: a failed service counts as
/// busy, and a denial as a missing permission.
pub open spec fn manager_error(status: ManagerStatus) -> Error {
    match status {
        ManagerStatus::Busy | ManagerStatus::Failed => Error::Busy,
        ManagerStatus::NotFound => Error::NotFound,
        _ => Error::PermissionDenied,
    }
}

/// What a root-manager reply decodes to when its body is `value`.
pub open spec fn manager_result<T>(r: RawMessage, tag: u32, min: u32, value: T) -> Result<T> {
    if !reply_shape(r, tag, min) {
        Err(Error::InvalidArgument)
    } else if manager_status_from_word(r.words[0]) == ManagerStatus::Success {
        Ok(value)
    } else {
        Err(manager_error(manager_status_from_word(r.words[0])))
    }
}

fn manager_check(r: &RawMessage, tag: u32, min: u32) -> (res: Result<()>)
    ensures
        res == manager_result(*r, tag, min, ()),
{
    if !has_shape(r, tag, min) {
        return Err(Error::InvalidArgument);
    }
    match manager_status_from_word(r.words[0]) {
        ManagerStatus::Success => Ok(()),
        ManagerStatus::Busy | ManagerStatus::Failed => Err(Error::Busy),
        ManagerStatus::NotFound => Err(Error::NotFound),
        ManagerStatus::Denied => Err(Error::PermissionDenied),
    }
}

/// Number of services a listing page carries (word 0), when they fit after
/// `filled` entries in room for `cap` and the reply holds their words.
pub open spec fn services_page(r: RawMessage, filled: nat, cap: nat) -> Result<nat> {
    let count = (r.words[0] as usize) as nat;
    if !reply_shape(r, ManagerTag::ListServicesReply.spec_code(), 2) {
        Err(Error::InvalidArgument)
    } else if filled + count > cap || r.word_count < 2 + count * 2 {
        Err(Error::BufferTooSmall)
    } else {
        Ok(count)
    }
}

/// The service record of a listing page, in the two words at `b`: the
/// service, then its phase with its start attempts in the high half.
pub open spec fn service_entry(r: RawMessage, b: int) -> ManagerServiceInfo {
    ManagerServiceInfo {
        service_id: service_id_from_word(r.words[b]),
        phase: manager_phase_from_word(r.words[b + 1]),
        attempts: (r.words[b + 1] >> 32) as u32,
    }
}

/// Step of listing the root manager's services into `services`, one page
/// at a time. Called without a reply it restarts at page zero; each page's
/// entries follow those already loaded, and the listing ends with the total
/// when the page's next page (word 1) is `usize::MAX`.
pub fn manager_list_services(services: &mut [ManagerServiceInfo], cursor: &mut PageCursor, reply: Option<&RawMessage>) -> (step: Exchange<usize>)
    requires
        reply_wf(reply),
        reply is Some ==> old(cursor).filled <= old(services)@.len(),
    ensures
        final(services)@.len() == old(services)@.len(),
        reply is None ==> *final(cursor) == (PageCursor { start: 0, filled: 0 }) && final(services)@ == old(services)@
            && sends(step, ManagerTag::ListServicesRequest.spec_code(), seq![0u64]),
        reply matches Some(r) ==> services_page(*r, old(cursor).filled as nat, old(services)@.len()) matches Err(e)
            ==> step == Exchange::<usize>::Done(Err(e)) && final(services)@ == old(services)@,
        reply matches Some(r) ==> (services_page(*r, old(cursor).filled as nat, old(services)@.len()) matches Ok(count) ==> {
            let loaded = old(cursor).filled + count;
            let next = r.words[1] as usize;
            &&& written(old(services)@, final(services)@, old(cursor).filled as int, count as int, |i: int| service_entry(*r, 2 + i * 2))
            &&& final(cursor).filled == loaded
            &&& next == usize::MAX ==> step == Exchange::<usize>::Done(Ok(loaded as usize))
            &&& next != usize::MAX ==> final(cursor).start == next
                && sends(step, ManagerTag::ListServicesRequest.spec_code(), seq![next as u64])
        }),
{
    let r = match reply {
        None => {
            *cursor = PageCursor { start: 0, filled: 0 };
            return Exchange::Send(request1(ManagerTag::ListServicesRequest.code(), 0));
        },
        Some(r) => r,
    };
    if !has_shape(r, ManagerTag::ListServicesReply.code(), 2) {
        return Exchange::Done(Err(Error::InvalidArgument));
    }
    let count = r.words[0] as usize;
    let filled = cursor.filled;
    if count > services.len() - filled || count > 7 || (r.word_count as usize) < 2 + count * 2 {
        return Exchange::Done(Err(Error::BufferTooSmall));
    }
    let ghost before = services@;
    let mut i: usize = 0;
    while i < count
        invariant
            r.wf(),
            count <= 7,
            2 + count * 2 <= r.word_count,
            filled + count <= services@.len(),
            services@.len() == before.len(),
            before.len() <= usize::MAX,
            i <= count,
            forall|k: int| filled <= k < filled + i ==> services@[k] == service_entry(*r, 2 + (k - filled) * 2),
            forall|k: int| 0 <= k < services@.len() && !(filled <= k < filled + i) ==> services@[k] == before[k],
        decreases count - i,
    {
        let b = 2 + i * 2;
        let slot = filled + i;
        services[slot] = ManagerServiceInfo {
            service_id: service_id_from_word(r.words[b]),
            phase: manager_phase_from_word(r.words[b + 1]),
            attempts: (r.words[b + 1] >> 32) as u32,
        };
        i = i + 1;
    }
    let next = r.words[1] as usize;
    cursor.filled = filled + count;
    if next == usize::MAX {
        return Exchange::Done(Ok(filled + count));
    }
    cursor.start = next;
    Exchange::Send(request1(ManagerTag::ListServicesRequest.code(), next as u64))
}

/// What a service-status reply decodes to: the manager's status word, the
/// service's phase, its start attempts and its last exit detail, whatever
/// the status says.
pub open spec fn service_status_result(r: RawMessage) -> Result<(ManagerStatus, ManagerServicePhase, u32, u64)> {
    if !reply_shape(r, ManagerTag::ServiceStatusReply.spec_code(), 4) {
        Err(Error::InvalidArgument)
    } else {
        Ok((manager_status_from_word(r.words[0]), manager_phase_from_word(r.words[1]), r.words[2] as u32, r.words[3]))
    }
}

/// Step of reading the root manager's view of service `service_id`.
pub fn manager_service_status(service_id: ServiceId, reply: Option<&RawMessage>) -> (step: Exchange<(ManagerStatus, ManagerServicePhase, u32, u64)>)
    ensures
        reply is None ==> sends(step, ManagerTag::ServiceStatusRequest.spec_code(), seq![service_id.spec_code() as u64]),
        reply matches Some(r) ==> step == Exchange::Done(service_status_result(*r)),
{
    match reply {
        None => Exchange::Send(request1(ManagerTag::ServiceStatusRequest.code(), service_id.code() as u64)),
        Some(r) => if has_shape(r, ManagerTag::ServiceStatusReply.code(), 4) {
            Exchange::Done(Ok((manager_status_from_word(r.words[0]), manager_phase_from_word(r.words[1]), r.words[2] as u32, r.words[3])))
        } else {
            Exchange::Done(Err(Error::InvalidArgument))
        },
    }
}

/// Step of restarting service `service_id`.
pub fn manager_restart_service(service_id: ServiceId, reply: Option<&RawMessage>) -> (step: Exchange<()>)
    ensures
        reply is None ==> sends(step, ManagerTag::ServiceActionRequest.spec_code(), seq![service_id.spec_code() as u64, ManagerAction::Restart.spec_code() as u64]),
        reply matches Some(r) ==> step == Exchange::Done(manager_result(*r, ManagerTag::ServiceActionReply.spec_code(), 1, ())),
{
    match reply {
        None => Exchange::Send(request2(ManagerTag::ServiceActionRequest.code(), service_id.code() as u64, ManagerAction::Restart.code() as u64)),
        Some(r) => Exchange::Done(manager_check(r, ManagerTag::ServiceActionReply.code(), 1)),
    }
}

/// Rights a launched program receives on the I/O handle it is given.
pub const STARTUP_IO_RIGHTS: u64 = 0xf;

/// What a launch reply decodes to: the new program's task handle, the first
/// the reply carries; a success that carries none is `InvalidArgument`.
pub open spec fn launch_result(r: RawMessage) -> Result<Handle> {
    let status = manager_status_from_word(r.words[0]);
    if !reply_shape(r, ManagerTag::LaunchReply.spec_code(), 1) {
        Err(Error::InvalidArgument)
    } else if status == ManagerStatus::Success {
        if r.handle_count > 0 { Ok(r.handles[0]) } else { Err(Error::InvalidArgument) }
    } else {
        Err(manager_error(status))
    }
}

/// `m` is the launch request for `image_id` with the given startup words
/// and handles: the image, the word count, the words; the handles with
/// their rights in order.
pub open spec fn is_launch(m: RawMessage, image_id: ServiceImageId, ws: Seq<u64>, hs: Seq<StartupHandle>) -> bool {
    &&& m.tag == ManagerTag::LaunchRequest.spec_code()
    &&& m.flags == 0
    &&& m.word_count == 2 + ws.len()
    &&& m.words[0] == image_id.spec_code() as u64
    &&& m.words[1] == ws.len() as u64
    &&& forall|i: int| 0 <= i < ws.len() ==> m.words[2 + i] == ws[i]
    &&& m.handle_count == hs.len()
    &&& forall|i: int| 0 <= i < hs.len() ==> m.handles[i] == hs[i].handle && m.handle_rights[i] == hs[i].rights
}

/// Step of launching program `image_id`, handing it `startup_words` and
/// `startup_handles`; `BufferTooSmall` when they do not fit one message
/// (fourteen words after the image and count, eight handles).
pub fn manager_launch_program_with_payload(image_id: ServiceImageId, startup_words: &[u64], startup_handles: &[StartupHandle], reply: Option<&RawMessage>) -> (step: Exchange<Handle>)
    ensures
        reply is None && (startup_words@.len() + 2 > 16 || startup_handles@.len() > 8) ==> step == Exchange::<Handle>::Done(Err(Error::BufferTooSmall)),
        reply is None && !(startup_words@.len() + 2 > 16 || startup_handles@.len() > 8) ==> (step matches Exchange::Send(m)
            && is_launch(m, image_id, startup_words@, startup_handles@)),
        reply matches Some(r) ==> step == Exchange::Done(launch_result(*r)),
{
    let r = match reply {
        None => {
            if startup_words.len() > 14 || startup_handles.len() > 8 {
                return Exchange::Done(Err(Error::BufferTooSmall));
            }
            let n = startup_words.len();
            let mut m = RawMessage::empty(ManagerTag::LaunchRequest.code());
            m.word_count = 2 + n as u32;
            m.words[0] = image_id.code() as u64;
            m.words[1] = n as u64;
            let mut i: usize = 0;
            while i < n
                invariant
                    n == startup_words@.len(),
                    n <= 14,
                    i <= n,
                    m.tag == ManagerTag::LaunchRequest.spec_code(),
                    m.flags == 0,
                    m.word_count == 2 + n,
                    m.words[0] == image_id.spec_code() as u64,
                    m.words[1] == n as u64,
                    m.handle_count == 0,
                    forall|k: int| 0 <= k < i ==> m.words[2 + k] == startup_words@[k],
                decreases n - i,
            {
                m.words[2 + i] = startup_words[i];
                i = i + 1;
            }
            let h = startup_handles.len();
            let mut j: usize = 0;
            while j < h
                invariant
                    h == startup_handles@.len(),
                    h <= 8,
                    j <= h,
                    m.tag == ManagerTag::LaunchRequest.spec_code(),
                    m.flags == 0,
                    m.word_count == 2 + n,
                    m.words[0] == image_id.spec_code() as u64,
                    m.words[1] == n as u64,
                    n == startup_words@.len(),
                    forall|k: int| 0 <= k < n ==> m.words[2 + k] == startup_words@[k],
                    forall|k: int| 0 <= k < j ==> m.handles[k] == startup_handles@[k].handle && m.handle_rights[k] == startup_handles@[k].rights,
                decreases h - j,
            {
                m.handles[j] = startup_handles[j].handle;
                m.handle_rights[j] = startup_handles[j].rights;
                j = j + 1;
            }
            m.handle_count = h as u32;
            return Exchange::Send(m);
        },
        Some(r) => r,
    };
    if !has_shape(r, ManagerTag::LaunchReply.code(), 1) {
        return Exchange::Done(Err(Error::InvalidArgument));
    }
    match manager_status_from_word(r.words[0]) {
        ManagerStatus::Success => if r.handle_count > 0 {
            Exchange::Done(Ok(r.handles[0]))
        } else {
            Exchange::Done(Err(Error::InvalidArgument))
        },
        ManagerStatus::Busy | ManagerStatus::Failed => Exchange::Done(Err(Error::Busy)),
        ManagerStatus::NotFound => Exchange::Done(Err(Error::NotFound)),
        ManagerStatus::Denied => Exchange::Done(Err(Error::PermissionDenied)),
    }
}

/// Step of launching program `image_id`. With an I/O handle the program
/// gets the startup word 1 and that handle with send, receive, duplicate
/// and transfer rights; without one, the startup word 0 and no handle.
pub fn manager_launch_program(image_id: ServiceImageId, io_handle: Option<Handle>, reply: Option<&RawMessage>) -> (step: Exchange<Handle>)
    ensures
        reply is None ==> (step matches Exchange::Send(m) && match io_handle {
            Some(h) => is_launch(m, image_id, seq![1u64], seq![StartupHandle { handle: h, rights: STARTUP_IO_RIGHTS }]),
            None => is_launch(m, image_id, seq![0u64], Seq::empty()),
        }),
        reply matches Some(r) ==> step == Exchange::Done(launch_result(*r)),
{
    match io_handle {
        Some(handle) => {
            let ws: [u64; 1] = [1];
            let hs: [StartupHandle; 1] = [StartupHandle {
                handle,
                rights: rights::SEND | rights::RECEIVE | rights::DUPLICATE | rights::TRANSFER,
            }];
            assert(rights::SEND | rights::RECEIVE | rights::DUPLICATE | rights::TRANSFER == STARTUP_IO_RIGHTS) by (bit_vector);
            assert(ws@ =~= seq![1u64]);
            assert(hs@ =~= seq![StartupHandle { handle, rights: STARTUP_IO_RIGHTS }]);
            manager_launch_program_with_payload(image_id, ws.as_slice(), hs.as_slice(), reply)
        },
        None => {
            let ws: [u64; 1] = [0];
            let hs: [StartupHandle; 0] = [];
            assert(ws@ =~= seq![0u64]);
            assert(hs@ =~= Seq::<StartupHandle>::empty());
            manager_launch_program_with_payload(image_id, ws.as_slice(), hs.as_slice(), reply)
        },
    }
}

/// Step of activating the service described by the manifest at
/// `manifest_path`; the outcome is the activated service. `BufferTooSmall`
/// for a path over 120 bytes.
pub fn manager_activate_service(manifest_path: &str, reply: Option<&RawMessage>) -> (step: Exchange<ServiceId>)
    ensures
        reply is None && manifest_path.spec_bytes().len() > 120 ==> step == Exchange::<ServiceId>::Done(Err(Error::BufferTooSmall)),
        reply is None && manifest_path.spec_bytes().len() <= 120 ==> sends(step, ManagerTag::ActivateRequest.spec_code(), seq![manifest_path.spec_bytes().len() as u64] + packed_words(manifest_path.spec_bytes())),
        reply matches Some(r) ==> step == Exchange::Done(manager_result(*r, ManagerTag::ActivateReply.spec_code(), 2, service_id_from_word(r.words[1]))),
{
    match reply {
        None => {
            let bytes = manifest_path.as_bytes();
            if bytes.len() > 120 {
                return Exchange::Done(Err(Error::BufferTooSmall));
            }
            let head: [u64; 1] = [bytes.len() as u64];
            assert(head@ =~= seq![bytes@.len() as u64]);
            Exchange::Send(request_with_bytes(ManagerTag::ActivateRequest.code(), head.as_slice(), bytes))
        },
        Some(r) => Exchange::Done(
            match manager_check(r, ManagerTag::ActivateReply.code(), 2) {
                Ok(()) => Ok(service_id_from_word(r.words[1])),
                Err(e) => Err(e),
            },
        ),
    }
}

/// Step of deactivating service `service_id`.
pub fn manager_deactivate_service(service_id: ServiceId, reply: Option<&RawMessage>) -> (step: Exchange<()>)
    ensures
        reply is None ==> sends(step, ManagerTag::DeactivateRequest.spec_code(), seq![service_id.spec_code() as u64]),
        reply matches Some(r) ==> step == Exchange::Done(manager_result(*r, ManagerTag::DeactivateReply.spec_code(), 1, ())),
{
    match reply {
        None => Exchange::Send(request1(ManagerTag::DeactivateRequest.code(), service_id.code() as u64)),
        Some(r) => Exchange::Done(manager_check(r, ManagerTag::DeactivateReply.code(), 1)),
    }
}

} // verus!
