//! Bootstrap protocol: registering a service's public channel and looking
//! services up.
use vstd::prelude::*;

use crate::abi::{ControlTag, LookupStatus, ServiceId};
use crate::error::{Error, Result};
use crate::message::{has_shape, reply_shape, request1, sends, Exchange, Handle, RawMessage};
use crate::rights;

verus! {

/// The message that registers `public` as the channel of `service_id`,
/// transferring it with send, receive, duplicate and transfer rights.
pub fn register_service(service_id: ServiceId, public: Handle) -> (m: RawMessage)
    ensures
        m.tag == ControlTag::Register.spec_code(),
        m.flags == 0,
        m.word_count == 1,
        m.words[0] == service_id.spec_code() as u64,
        forall|i: int| 1 <= i < 16 ==> m.words[i] == 0,
        m.handle_count == 1,
        m.handles[0] == public,
        m.handle_rights[0] == rights::SEND | rights::RECEIVE | rights::DUPLICATE | rights::TRANSFER,
        forall|i: int| 1 <= i < 8 ==> m.handles[i] == 0 && m.handle_rights[i] == 0,
{
    let mut m = request1(ControlTag::Register.code(), service_id.code() as u64);
    assert(m.words[0] == seq![service_id.spec_code() as u64][0]);
    m.handle_count = 1;
    m.handles[0] = public;
    m.handle_rights[0] = rights::SEND | rights::RECEIVE | rights::DUPLICATE | rights::TRANSFER;
    m
}

/// What a lookup reply decodes to: the service's channel when found and
/// transferred; a denied lookup is `PermissionDenied`, an unavailable
/// service `NotFound`.
pub open spec fn lookup_result(r: RawMessage) -> Result<Handle> {
    let code = r.words[1] as u32;
    if !reply_shape(r, ControlTag::LookupReply.spec_code(), 2) {
        Err(Error::InvalidArgument)
    } else if code == LookupStatus::Success.spec_code() && r.handle_count > 0 {
        Ok(r.handles[0])
    } else if code == LookupStatus::Denied.spec_code() {
        Err(Error::PermissionDenied)
    } else if code == LookupStatus::Unavailable.spec_code() {
        Err(Error::NotFound)
    } else {
        Err(Error::InvalidArgument)
    }
}

/// Step of looking up the channel of `service_id`.
pub fn lookup_service(service_id: ServiceId, reply: Option<&RawMessage>) -> (step: Exchange<Handle>)
    ensures
        reply is None ==> sends(step, ControlTag::LookupRequest.spec_code(), seq![service_id.spec_code() as u64]),
        reply matches Some(r) ==> step == Exchange::Done(lookup_result(*r)),
{
    match reply {
        None => Exchange::Send(request1(ControlTag::LookupRequest.code(), service_id.code() as u64)),
        Some(r) => {
            if !has_shape(r, ControlTag::LookupReply.code(), 2) {
                return Exchange::Done(Err(Error::InvalidArgument));
            }
            let code = r.words[1] as u32;
            if code == LookupStatus::Success.code() && r.handle_count > 0 {
                Exchange::Done(Ok(r.handles[0]))
            } else if code == LookupStatus::Denied.code() {
                Exchange::Done(Err(Error::PermissionDenied))
            } else if code == LookupStatus::Unavailable.code() {
                Exchange::Done(Err(Error::NotFound))
            } else {
                Exchange::Done(Err(Error::InvalidArgument))
            }
        },
    }
}

} // verus!
