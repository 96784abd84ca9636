//! Lifecycle notices the root manager sends a service on its bootstrap
//! channel, and when a service must stop.
use vstd::prelude::*;

use crate::abi::{ControlTag, LifecycleEvent};
use crate::error::{Error, Result};
use crate::message::RawMessage;

verus! {

/// The lifecycle event a notice word names; any word other than those of
/// the first four events reads as `Restarting`.
pub open spec fn lifecycle_event_of(value: u64) -> LifecycleEvent {
    let c = value as u32;
    if c == LifecycleEvent::Starting.spec_code() {
        LifecycleEvent::Starting
    } else if c == LifecycleEvent::Ready.spec_code() {
        LifecycleEvent::Ready
    } else if c == LifecycleEvent::Failed.spec_code() {
        LifecycleEvent::Failed
    } else if c == LifecycleEvent::Stopped.spec_code() {
        LifecycleEvent::Stopped
    } else {
        LifecycleEvent::Restarting
    }
}

/// Decodes the lifecycle event of a notice word.
pub fn lifecycle_event_from_word(value: u64) -> (e: LifecycleEvent)
    ensures
        e == lifecycle_event_of(value),
{
    let c = value as u32;
    if c == LifecycleEvent::Starting.code() {
        LifecycleEvent::Starting
    } else if c == LifecycleEvent::Ready.code() {
        LifecycleEvent::Ready
    } else if c == LifecycleEvent::Failed.code() {
        LifecycleEvent::Failed
    } else if c == LifecycleEvent::Stopped.code() {
        LifecycleEvent::Stopped
    } else {
        LifecycleEvent::Restarting
    }
}

/// Whether a message received on the bootstrap channel tells the service to
/// stop: a lifecycle notice of `Restarting` or `Stopped`.
pub open spec fn stops(m: RawMessage) -> bool {
    &&& m.tag == ControlTag::Lifecycle.spec_code()
    &&& m.word_count > 0
    &&& (lifecycle_event_of(m.words[0]) == LifecycleEvent::Restarting || lifecycle_event_of(m.words[0]) == LifecycleEvent::Stopped)
}

/// What one nonblocking look at the bootstrap channel decides: `received`
/// is the outcome of the receive and `message` what it filled in. An empty
/// queue and any message other than a stopping notice mean carry on
/// (`false`); a stopping notice means stop (`true`); other receive errors
/// pass through.
pub fn poll_lifecycle(received: Result<()>, message: &RawMessage) -> (r: Result<bool>)
    ensures
        received is Ok ==> r == Ok::<bool, Error>(stops(*message)),
        received == Err::<(), Error>(Error::QueueEmpty) ==> r == Ok::<bool, Error>(false),
        received matches Err(e) ==> (e != Error::QueueEmpty ==> r == Err::<bool, Error>(e)),
{
    match received {
        Ok(()) => {
            if message.tag == ControlTag::Lifecycle.code() && message.word_count > 0 {
                let event = lifecycle_event_from_word(message.words[0]);
                Ok(event == LifecycleEvent::Restarting || event == LifecycleEvent::Stopped)
            } else {
                Ok(false)
            }
        },
        Err(Error::QueueEmpty) => Ok(false),
        Err(e) => Err(e),
    }
}

} // verus!
