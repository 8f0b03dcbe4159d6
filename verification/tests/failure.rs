use block_latency::failure::{
    classify_persister_event, classify_skip, classify_subscriber_event, FailureClass,
};
use block_latency::persister::{PersisterEvent, PersisterPhase};
use block_latency::recorder::{LatencyRecord, Skipped};
use block_latency::subscriber::{Inbound, SubscriberEvent};

#[test]
fn setup_and_forwarding_failures_are_fatal() {
    assert_eq!(classify_subscriber_event(SubscriberEvent::ConnectFailed), Some(FailureClass::Fatal));
    assert_eq!(classify_subscriber_event(SubscriberEvent::SubscribeFailed), Some(FailureClass::Fatal));
    assert_eq!(classify_subscriber_event(SubscriberEvent::ForwardFailed), Some(FailureClass::Fatal));
}

#[test]
fn stream_failures_are_recovered() {
    assert_eq!(
        classify_subscriber_event(SubscriberEvent::StreamError),
        Some(FailureClass::TransientRecovered)
    );
    assert_eq!(
        classify_subscriber_event(SubscriberEvent::PongFailed),
        Some(FailureClass::TransientRecovered)
    );
}

#[test]
fn good_news_is_no_failure() {
    for event in [
        SubscriberEvent::Connected,
        SubscriberEvent::Subscribed,
        SubscriberEvent::Message(Inbound::Ping),
        SubscriberEvent::Message(Inbound::Other),
        SubscriberEvent::StreamClosed,
        SubscriberEvent::PongSent,
        SubscriberEvent::Forwarded,
        SubscriberEvent::BackoffElapsed,
    ] {
        assert_eq!(classify_subscriber_event(event), None);
    }
    assert_eq!(classify_persister_event(PersisterPhase::Idle, PersisterEvent::InputClosed), None);
    assert_eq!(classify_persister_event(PersisterPhase::Flushing, PersisterEvent::Flushed), None);
}

#[test]
fn failures_of_a_record_are_recovered() {
    let record = LatencyRecord { slot: 10, time: 1 };
    assert_eq!(
        classify_persister_event(PersisterPhase::Writing(record), PersisterEvent::WriteFailed),
        Some(FailureClass::TransientRecovered)
    );
    assert_eq!(
        classify_persister_event(PersisterPhase::Flushing, PersisterEvent::FlushFailed),
        Some(FailureClass::TransientRecovered)
    );
}

#[test]
fn failures_before_the_first_record_are_fatal() {
    assert_eq!(
        classify_persister_event(PersisterPhase::Opening, PersisterEvent::OpenFailed),
        Some(FailureClass::Fatal)
    );
    assert_eq!(
        classify_persister_event(PersisterPhase::WritingHeader, PersisterEvent::WriteFailed),
        Some(FailureClass::Fatal)
    );
    assert_eq!(
        classify_persister_event(PersisterPhase::FlushingHeader, PersisterEvent::FlushFailed),
        Some(FailureClass::Fatal)
    );
}

#[test]
fn failure_out_of_turn_has_no_class() {
    assert_eq!(classify_persister_event(PersisterPhase::Idle, PersisterEvent::WriteFailed), None);
    assert_eq!(classify_persister_event(PersisterPhase::Done, PersisterEvent::OpenFailed), None);
}

#[test]
fn skipped_notifications_are_dropped() {
    assert_eq!(classify_skip(Skipped::NoTimestamp), FailureClass::DroppedMalformed);
    assert_eq!(classify_skip(Skipped::ClockUnavailable), FailureClass::DroppedMalformed);
}
