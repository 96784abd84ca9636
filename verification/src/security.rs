//! Security-service protocol: per-application permission policies and the
//! security audit log. The caller attaches a reply channel (send right) to
//! each request and reads the reply from it.
use vstd::prelude::*;

use crate::abi::{PermissionPolicyState, SecurityStatus, SecurityTag, ServiceId, ServiceImageId};
use crate::bootstrap::{lookup_result, lookup_service};
use crate::decode::{image_id_from_word, permission_policy_state_from_word, security_audit_kind_from_word, security_status_from_word};
use crate::error::{Error, Result};
use crate::message::{has_shape, message_bytes, reply_shape, reply_wf, request1, request2, sends, unpack_from, unpack_outcome, Exchange, Handle, RawMessage};
use crate::types::{SecurityAppPolicyInfo, SecurityAuditInfo};

verus! {

/// Step of looking up the security service's channel.
pub fn security_lookup(reply: Option<&RawMessage>) -> (step: Exchange<Handle>)
    ensures
        reply is None ==> sends(step, crate::abi::ControlTag::LookupRequest.spec_code(), seq![ServiceId::Security.spec_code() as u64]),
        reply matches Some(r) ==> step == Exchange::Done(lookup_result(*r)),
{
    lookup_service(ServiceId::Security, reply)
}

/// The error a failed security status stands for.
pub open spec fn security_failure(status: SecurityStatus) -> Error {
    match status {
        SecurityStatus::NotFound => Error::NotFound,
        SecurityStatus::Denied => Error::PermissionDenied,
        SecurityStatus::Busy => Error::Busy,
        SecurityStatus::Success => Error::InvalidArgument,
    }
}

/// What the policy record of a successful policy reply decodes to: its
/// image, permissions, policy, sensitive permissions and name length;
/// `BufferTooSmall` for a name over 64 bytes or one the words cannot carry.
pub open spec fn policy_record(r: RawMessage) -> Result<(ServiceImageId, u32, PermissionPolicyState, u32, u32)> {
    let n = (r.words[5] as usize) as nat;
    if n > 64 {
        Err(Error::BufferTooSmall)
    } else {
        match unpack_outcome(r, 6, n, 64) {
            Err(e) => Err(e),
            Ok(_) => Ok((image_id_from_word(r.words[1]), r.words[2] as u32, permission_policy_state_from_word(r.words[3]), r.words[4] as u32, n as u32)),
        }
    }
}

/// The policy record agrees with the decoded fields `d`, and its name is
/// the bytes carried from word 6 on, then zeros.
pub open spec fn policy_matches(p: SecurityAppPolicyInfo, d: (ServiceImageId, u32, PermissionPolicyState, u32, u32), r: RawMessage) -> bool {
    &&& p.image_id == d.0
    &&& p.permissions == d.1
    &&& p.policy == d.2
    &&& p.sensitive_permissions == d.3
    &&& p.name_len == d.4
    &&& p.name@.take(d.4 as int) == message_bytes(r, 6, d.4 as nat)
    &&& forall|k: int| d.4 <= k < 64 ==> p.name@[k] == 0u8
}

fn policy_from(r: &RawMessage) -> (res: Result<SecurityAppPolicyInfo>)
    requires
        r.wf(),
        r.word_count >= 6,
    ensures
        policy_record(*r) matches Err(e) ==> res == Err::<SecurityAppPolicyInfo, Error>(e),
        policy_record(*r) matches Ok(d) ==> (res matches Ok(p) && policy_matches(p, d, *r)),
{
    let n = r.words[5] as usize;
    if n > 64 {
        return Err(Error::BufferTooSmall);
    }
    let mut name = [0u8; 64];
    let ghost zero = name@;
    match unpack_from(r, 6, n, &mut name) {
        Ok(()) => {},
        Err(e) => return Err(e),
    }
    proof {
        assert forall|k: int| n <= k < 64 implies name@[k] == 0u8 by {
            assert(name@.subrange(n as int, 64)[k - n] == zero.subrange(n as int, 64)[k - n]);
        }
        assert(name@.take(n as int) =~= name@.subrange(0, n as int));
    }
    Ok(SecurityAppPolicyInfo {
        image_id: image_id_from_word(r.words[1]),
        permissions: r.words[2] as u32,
        policy: permission_policy_state_from_word(r.words[3]),
        sensitive_permissions: r.words[4] as u32,
        name_len: n as u32,
        name,
    })
}

/// Whether a policy-list reply lists an entry: `Ok(true)` for one read,
/// `Ok(false)` past the end of the list, the error otherwise.
pub open spec fn policy_listed(r: RawMessage) -> Result<bool> {
    let status = security_status_from_word(r.words[0]);
    if !reply_shape(r, SecurityTag::PolicyListReply.spec_code(), 6) {
        Err(Error::InvalidArgument)
    } else if status == SecurityStatus::NotFound {
        Ok(false)
    } else if status != SecurityStatus::Success {
        Err(security_failure(status))
    } else {
        match policy_record(r) {
            Err(e) => Err(e),
            Ok(_) => Ok(true),
        }
    }
}

/// Step of counting the policies the service lists: it reads positions
/// 0, 1, ... of the list until one is past its end; `count` holds the
/// positions read so far, and the outcome is their number.
pub fn security_policy_count(count: &mut usize, reply: Option<&RawMessage>) -> (step: Exchange<usize>)
    requires
        reply_wf(reply),
        reply is Some ==> *old(count) < usize::MAX,
    ensures
        reply is None ==> *final(count) == 0 && sends(step, SecurityTag::PolicyListRequest.spec_code(), seq![0u64]),
        reply matches Some(r) ==> match policy_listed(*r) {
            Ok(true) => *final(count) == *old(count) + 1
                && sends(step, SecurityTag::PolicyListRequest.spec_code(), seq![(*old(count) + 1) as u64]),
            Ok(false) => *final(count) == *old(count) && step == Exchange::<usize>::Done(Ok(*old(count))),
            Err(e) => *final(count) == *old(count) && step == Exchange::<usize>::Done(Err(e)),
        },
{
    let r = match reply {
        None => {
            *count = 0;
            return Exchange::Send(request1(SecurityTag::PolicyListRequest.code(), 0));
        },
        Some(r) => r,
    };
    match security_policy_list(*count, Some(r)) {
        Exchange::Done(Ok(Some(_))) => {
            *count = *count + 1;
            Exchange::Send(request1(SecurityTag::PolicyListRequest.code(), *count as u64))
        },
        Exchange::Done(Ok(None)) => Exchange::Done(Ok(*count)),
        Exchange::Done(Err(e)) => Exchange::Done(Err(e)),
        Exchange::Send(m) => Exchange::Send(m),
    }
}

/// Step of reading the policy at position `index` of the policy list;
/// `None` past its end.
pub fn security_policy_list(index: usize, reply: Option<&RawMessage>) -> (step: Exchange<Option<SecurityAppPolicyInfo>>)
    requires
        reply_wf(reply),
    ensures
        reply is None ==> sends(step, SecurityTag::PolicyListRequest.spec_code(), seq![index as u64]),
        reply matches Some(r) ==> step matches Exchange::Done(res) && {
            let status = security_status_from_word(r.words[0]);
            &&& !reply_shape(*r, SecurityTag::PolicyListReply.spec_code(), 6) ==> res == Err::<Option<SecurityAppPolicyInfo>, Error>(Error::InvalidArgument)
            &&& reply_shape(*r, SecurityTag::PolicyListReply.spec_code(), 6) && status == SecurityStatus::NotFound ==> res == Ok::<Option<SecurityAppPolicyInfo>, Error>(None)
            &&& reply_shape(*r, SecurityTag::PolicyListReply.spec_code(), 6) && status != SecurityStatus::NotFound && status != SecurityStatus::Success
                ==> res == Err::<Option<SecurityAppPolicyInfo>, Error>(security_failure(status))
            &&& reply_shape(*r, SecurityTag::PolicyListReply.spec_code(), 6) && status == SecurityStatus::Success ==> {
                &&& policy_record(*r) matches Err(e) ==> res == Err::<Option<SecurityAppPolicyInfo>, Error>(e)
                &&& policy_record(*r) matches Ok(d) ==> (res matches Ok(Some(p)) && policy_matches(p, d, *r))
            }
        },
{
    let r = match reply {
        None => return Exchange::Send(request1(SecurityTag::PolicyListRequest.code(), index as u64)),
        Some(r) => r,
    };
    if !has_shape(r, SecurityTag::PolicyListReply.code(), 6) {
        return Exchange::Done(Err(Error::InvalidArgument));
    }
    match security_status_from_word(r.words[0]) {
        SecurityStatus::Success => Exchange::Done(
            match policy_from(r) {
                Ok(p) => Ok(Some(p)),
                Err(e) => Err(e),
            },
        ),
        SecurityStatus::NotFound => Exchange::Done(Ok(None)),
        SecurityStatus::Denied => Exchange::Done(Err(Error::PermissionDenied)),
        SecurityStatus::Busy => Exchange::Done(Err(Error::Busy)),
    }
}

/// Step of reading the policy of image `image_id`.
pub fn security_policy_info(image_id: ServiceImageId, reply: Option<&RawMessage>) -> (step: Exchange<SecurityAppPolicyInfo>)
    requires
        reply_wf(reply),
    ensures
        reply is None ==> sends(step, SecurityTag::PolicyInfoRequest.spec_code(), seq![image_id.spec_code() as u64]),
        reply matches Some(r) ==> step matches Exchange::Done(res) && {
            let status = security_status_from_word(r.words[0]);
            &&& !reply_shape(*r, SecurityTag::PolicyInfoReply.spec_code(), 6) ==> res == Err::<SecurityAppPolicyInfo, Error>(Error::InvalidArgument)
            &&& reply_shape(*r, SecurityTag::PolicyInfoReply.spec_code(), 6) && status != SecurityStatus::Success
                ==> res == Err::<SecurityAppPolicyInfo, Error>(security_failure(status))
            &&& reply_shape(*r, SecurityTag::PolicyInfoReply.spec_code(), 6) && status == SecurityStatus::Success ==> {
                &&& policy_record(*r) matches Err(e) ==> res == Err::<SecurityAppPolicyInfo, Error>(e)
                &&& policy_record(*r) matches Ok(d) ==> (res matches Ok(p) && policy_matches(p, d, *r))
            }
        },
{
    let r = match reply {
        None => return Exchange::Send(request1(SecurityTag::PolicyInfoRequest.code(), image_id.code() as u64)),
        Some(r) => r,
    };
    if !has_shape(r, SecurityTag::PolicyInfoReply.code(), 6) {
        return Exchange::Done(Err(Error::InvalidArgument));
    }
    match security_status_from_word(r.words[0]) {
        SecurityStatus::Success => Exchange::Done(policy_from(r)),
        SecurityStatus::NotFound => Exchange::Done(Err(Error::NotFound)),
        SecurityStatus::Denied => Exchange::Done(Err(Error::PermissionDenied)),
        SecurityStatus::Busy => Exchange::Done(Err(Error::Busy)),
    }
}

/// What a policy-set reply decodes to.
pub open spec fn policy_set_result(r: RawMessage) -> Result<()> {
    let status = security_status_from_word(r.words[0]);
    if !reply_shape(r, SecurityTag::PolicySetReply.spec_code(), 1) {
        Err(Error::InvalidArgument)
    } else if status == SecurityStatus::Success {
        Ok(())
    } else {
        Err(security_failure(status))
    }
}

/// Step of setting the policy of image `image_id`.
pub fn security_policy_set(image_id: ServiceImageId, policy: PermissionPolicyState, reply: Option<&RawMessage>) -> (step: Exchange<()>)
    ensures
        reply is None ==> sends(step, SecurityTag::PolicySetRequest.spec_code(), seq![image_id.spec_code() as u64, policy.spec_code() as u64]),
        reply matches Some(r) ==> step == Exchange::Done(policy_set_result(*r)),
{
    match reply {
        None => Exchange::Send(request2(SecurityTag::PolicySetRequest.code(), image_id.code() as u64, policy.code() as u64)),
        Some(r) => {
            if !has_shape(r, SecurityTag::PolicySetReply.code(), 1) {
                return Exchange::Done(Err(Error::InvalidArgument));
            }
            match security_status_from_word(r.words[0]) {
                SecurityStatus::Success => Exchange::Done(Ok(())),
                SecurityStatus::NotFound => Exchange::Done(Err(Error::NotFound)),
                SecurityStatus::Denied => Exchange::Done(Err(Error::PermissionDenied)),
                SecurityStatus::Busy => Exchange::Done(Err(Error::Busy)),
            }
        },
    }
}

/// The audit record a reply carries in words 1 to 5; the detail word is
/// zero when the reply stops at word 4.
pub open spec fn audit_info_of(r: RawMessage) -> SecurityAuditInfo {
    SecurityAuditInfo {
        sequence: r.words[1] as u32,
        kind: security_audit_kind_from_word(r.words[2]),
        subject_image_id: image_id_from_word(r.words[3]),
        policy: permission_policy_state_from_word(r.words[4]),
        detail: if r.word_count > 5 { r.words[5] } else { 0 },
    }
}

/// What an audit-list reply decodes to: `None` past the end of the log.
pub open spec fn audit_list_result(r: RawMessage) -> Result<Option<SecurityAuditInfo>> {
    let status = security_status_from_word(r.words[0]);
    if !reply_shape(r, SecurityTag::AuditListReply.spec_code(), 5) {
        Err(Error::InvalidArgument)
    } else if status == SecurityStatus::Success {
        Ok(Some(audit_info_of(r)))
    } else if status == SecurityStatus::NotFound {
        Ok(None)
    } else {
        Err(security_failure(status))
    }
}

/// Step of reading entry `index` of the security audit log.
pub fn security_audit_list(index: usize, reply: Option<&RawMessage>) -> (step: Exchange<Option<SecurityAuditInfo>>)
    ensures
        reply is None ==> sends(step, SecurityTag::AuditListRequest.spec_code(), seq![index as u64]),
        reply matches Some(r) ==> step == Exchange::Done(audit_list_result(*r)),
{
    match reply {
        None => Exchange::Send(request1(SecurityTag::AuditListRequest.code(), index as u64)),
        Some(r) => {
            if !has_shape(r, SecurityTag::AuditListReply.code(), 5) {
                return Exchange::Done(Err(Error::InvalidArgument));
            }
            match security_status_from_word(r.words[0]) {
                SecurityStatus::Success => Exchange::Done(Ok(Some(SecurityAuditInfo {
                    sequence: r.words[1] as u32,
                    kind: security_audit_kind_from_word(r.words[2]),
                    subject_image_id: image_id_from_word(r.words[3]),
                    policy: permission_policy_state_from_word(r.words[4]),
                    detail: if r.word_count > 5 { r.words[5] } else { 0 },
                }))),
                SecurityStatus::NotFound => Exchange::Done(Ok(None)),
                SecurityStatus::Denied => Exchange::Done(Err(Error::PermissionDenied)),
                SecurityStatus::Busy => Exchange::Done(Err(Error::Busy)),
            }
        },
    }
}

} // verus!
