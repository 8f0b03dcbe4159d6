//! The classes of failure, and which failure falls in which.
//!
//! A failure either ends the component that meets it, or is recovered from
//! where it is met, or is a malformed input that is dropped. Only the first
//! kind is ever seen outside the component.

use crate::persister;
use crate::persister::{PersisterEvent, PersisterPhase};
use crate::recorder::Skipped;
use crate::subscriber;
use crate::subscriber::{SubscriberEvent, SubscriberPhase};
use vstd::prelude::*;

verus! {

/// What becomes of a failure.
#[derive(Clone, Copy, Debug, PartialEq, Eq)]
pub enum FailureClass {
    /// The component ends with an error.
    Fatal,
    /// The component recovers by itself and goes on.
    TransientRecovered,
    /// The input is dropped and nothing else happens.
    DroppedMalformed,
}

/// The class of the failure that an event reports to the subscriber; `None`
/// for an event that reports none.
pub open spec fn subscriber_failure(event: SubscriberEvent) -> Option<FailureClass> {
    match event {
        SubscriberEvent::ConnectFailed => Some(FailureClass::Fatal),
        SubscriberEvent::SubscribeFailed => Some(FailureClass::Fatal),
        SubscriberEvent::ForwardFailed => Some(FailureClass::Fatal),
        SubscriberEvent::StreamError => Some(FailureClass::TransientRecovered),
        SubscriberEvent::PongFailed => Some(FailureClass::TransientRecovered),
        _ => None,
    }
}

/// The class of the failure that an event reports to the persister in a
/// phase; `None` for an event that reports none. A failure before the first
/// record is awaited is fatal; the failed write or flush of a record is
/// recovered from.
pub open spec fn persister_failure(phase: PersisterPhase, event: PersisterEvent) -> Option<
    FailureClass,
> {
    match (phase, event) {
        (PersisterPhase::Opening, PersisterEvent::OpenFailed) => Some(FailureClass::Fatal),
        (PersisterPhase::WritingHeader, PersisterEvent::WriteFailed) => Some(FailureClass::Fatal),
        (PersisterPhase::FlushingHeader, PersisterEvent::FlushFailed) => Some(
            FailureClass::Fatal,
        ),
        (PersisterPhase::Writing(_), PersisterEvent::WriteFailed) => Some(
            FailureClass::TransientRecovered,
        ),
        (PersisterPhase::Flushing, PersisterEvent::FlushFailed) => Some(
            FailureClass::TransientRecovered,
        ),
        _ => None,
    }
}

/// The class of the failure that an event reports to the subscriber.
pub fn classify_subscriber_event(event: SubscriberEvent) -> (class: Option<FailureClass>)
    ensures
        class == subscriber_failure(event),
{
    match event {
        SubscriberEvent::ConnectFailed => Some(FailureClass::Fatal),
        SubscriberEvent::SubscribeFailed => Some(FailureClass::Fatal),
        SubscriberEvent::ForwardFailed => Some(FailureClass::Fatal),
        SubscriberEvent::StreamError => Some(FailureClass::TransientRecovered),
        SubscriberEvent::PongFailed => Some(FailureClass::TransientRecovered),
        _ => None,
    }
}

/// The class of the failure that an event reports to the persister in a phase.
pub fn classify_persister_event(phase: PersisterPhase, event: PersisterEvent) -> (class: Option<
    FailureClass,
>)
    ensures
        class == persister_failure(phase, event),
{
    match (phase, event) {
        (PersisterPhase::Opening, PersisterEvent::OpenFailed) => Some(FailureClass::Fatal),
        (PersisterPhase::WritingHeader, PersisterEvent::WriteFailed) => Some(FailureClass::Fatal),
        (PersisterPhase::FlushingHeader, PersisterEvent::FlushFailed) => Some(
            FailureClass::Fatal,
        ),
        (PersisterPhase::Writing(_), PersisterEvent::WriteFailed) => Some(
            FailureClass::TransientRecovered,
        ),
        (PersisterPhase::Flushing, PersisterEvent::FlushFailed) => Some(
            FailureClass::TransientRecovered,
        ),
        _ => None,
    }
}

/// The class of a notification that the recorder passes over: it is dropped.
pub fn classify_skip(skipped: Skipped) -> (class: FailureClass)
    ensures
        class == FailureClass::DroppedMalformed,
{
    match skipped {
        Skipped::NoTimestamp => FailureClass::DroppedMalformed,
        Skipped::ClockUnavailable => FailureClass::DroppedMalformed,
    }
}

/// In the subscriber, the fatal failures are those that end it, and the
/// recovered ones are those that lead to a wait and a new subscription. An
/// event that reports no failure does neither.
pub proof fn lemma_subscriber_failures(phase: SubscriberPhase, event: SubscriberEvent)
    requires
        subscriber::transition(phase, event) is Some,
    ensures
        subscriber::transition(phase, event) matches Some((next, action)) && ({
            &&& subscriber_failure(event) == Some(FailureClass::Fatal) <==> next is Failed
            &&& subscriber_failure(event) == Some(FailureClass::Fatal) <==> action is Fail
            &&& subscriber_failure(event) == Some(FailureClass::TransientRecovered) <==> action
                is Backoff
            &&& subscriber_failure(event) != Some(FailureClass::DroppedMalformed)
        }),
{
}

/// In the persister, the fatal failures are those that end it with an error,
/// and after a recovered one it awaits the next record. An event that reports
/// no failure never ends it with an error.
pub proof fn lemma_persister_failures(phase: PersisterPhase, event: PersisterEvent)
    requires
        persister::transition(phase, event) is Some,
    ensures
        persister::transition(phase, event) matches Some((next, action)) && ({
            &&& persister_failure(phase, event) == Some(FailureClass::Fatal) <==> next is Failed
            &&& persister_failure(phase, event) == Some(FailureClass::Fatal) <==> action is Abort
            &&& persister_failure(phase, event) == Some(FailureClass::TransientRecovered) ==> next
                is Idle && action is Receive
            &&& persister_failure(phase, event) != Some(FailureClass::DroppedMalformed)
            &&& persister_failure(phase, event) is Some <==> event is OpenFailed || event
                is WriteFailed || event is FlushFailed
        }),
{
}

} // verus!
