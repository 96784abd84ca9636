//! Config-service protocol: reading and writing numbered settings. The
//! caller attaches a reply channel (send right) to each request and reads
//! the reply from it.
use vstd::prelude::*;

use crate::abi::{ConfigKey, ConfigStatus, ConfigTag, ConfigValueKind};
use crate::error::{Error, Result};
use crate::message::{has_shape, reply_shape, request1, request2, sends, Exchange, RawMessage};

verus! {

/// What a config read reply decodes to: the value's kind (only unsigned
/// values exist) and the value.
pub open spec fn config_read_result(r: RawMessage) -> Result<(ConfigValueKind, u64)> {
    if !reply_shape(r, ConfigTag::ReadReply.spec_code(), 3) {
        Err(Error::InvalidArgument)
    } else if r.words[1] as u32 == ConfigValueKind::Unsigned.spec_code() {
        Ok((ConfigValueKind::Unsigned, r.words[2]))
    } else {
        Err(Error::InvalidArgument)
    }
}

/// Step of reading the setting `key`.
pub fn config_read(key: ConfigKey, reply: Option<&RawMessage>) -> (step: Exchange<(ConfigValueKind, u64)>)
    ensures
        reply is None ==> sends(step, ConfigTag::ReadRequest.spec_code(), seq![key.spec_code() as u64]),
        reply matches Some(r) ==> step == Exchange::Done(config_read_result(*r)),
{
    match reply {
        None => Exchange::Send(request1(ConfigTag::ReadRequest.code(), key.code() as u64)),
        Some(r) => {
            if !has_shape(r, ConfigTag::ReadReply.code(), 3) {
                return Exchange::Done(Err(Error::InvalidArgument));
            }
            if r.words[1] as u32 == ConfigValueKind::Unsigned.code() {
                Exchange::Done(Ok((ConfigValueKind::Unsigned, r.words[2])))
            } else {
                Exchange::Done(Err(Error::InvalidArgument))
            }
        },
    }
}

/// What a config write reply decodes to.
pub open spec fn config_write_result(r: RawMessage) -> Result<()> {
    let code = r.words[0] as u32;
    if !reply_shape(r, ConfigTag::WriteReply.spec_code(), 1) {
        Err(Error::InvalidArgument)
    } else if code == ConfigStatus::Success.spec_code() {
        Ok(())
    } else if code == ConfigStatus::NotFound.spec_code() {
        Err(Error::NotFound)
    } else if code == ConfigStatus::Denied.spec_code() {
        Err(Error::PermissionDenied)
    } else {
        Err(Error::InvalidArgument)
    }
}

/// Step of writing `value` to the setting `key`.
pub fn config_write(key: ConfigKey, value: u64, reply: Option<&RawMessage>) -> (step: Exchange<()>)
    ensures
        reply is None ==> sends(step, ConfigTag::WriteRequest.spec_code(), seq![key.spec_code() as u64, value]),
        reply matches Some(r) ==> step == Exchange::Done(config_write_result(*r)),
{
    match reply {
        None => Exchange::Send(request2(ConfigTag::WriteRequest.code(), key.code() as u64, value)),
        Some(r) => {
            if !has_shape(r, ConfigTag::WriteReply.code(), 1) {
                return Exchange::Done(Err(Error::InvalidArgument));
            }
            let code = r.words[0] as u32;
            if code == ConfigStatus::Success.code() {
                Exchange::Done(Ok(()))
            } else if code == ConfigStatus::NotFound.code() {
                Exchange::Done(Err(Error::NotFound))
            } else if code == ConfigStatus::Denied.code() {
                Exchange::Done(Err(Error::PermissionDenied))
            } else {
                Exchange::Done(Err(Error::InvalidArgument))
            }
        },
    }
}

} // verus!
