use block_latency::recorder::BlockEvent;
use block_latency::subscriber::{
    block_subscription, CommitmentLevel, Inbound, Stage, Subscriber, SubscriberAction,
    SubscriberError, SubscriberEvent, SubscriberPhase, Subscription, BACKOFF_SECS, PONG_ID,
};

fn streaming() -> Subscriber {
    let mut subscriber = Subscriber::new(CommitmentLevel::Confirmed);
    assert_eq!(subscriber.step(SubscriberEvent::Connected), Some(SubscriberAction::Subscribe));
    assert_eq!(subscriber.step(SubscriberEvent::Subscribed), Some(SubscriberAction::Receive));
    subscriber
}

fn block(slot: u64) -> BlockEvent {
    BlockEvent { slot, produced_at: Some(slot as i64) }
}

#[test]
fn request_asks_for_whole_blocks() {
    assert_eq!(
        block_subscription(CommitmentLevel::Confirmed),
        Subscription {
            filter_name: String::from("client"),
            account_include: Vec::new(),
            include_transactions: Some(true),
            include_accounts: None,
            include_entries: None,
            commitment: 1,
        }
    );
}

#[test]
fn commitment_levels_have_their_numbers() {
    assert_eq!(CommitmentLevel::Processed.code(), 0);
    assert_eq!(CommitmentLevel::Confirmed.code(), 1);
    assert_eq!(CommitmentLevel::Finalized.code(), 2);
    assert_eq!(block_subscription(CommitmentLevel::Finalized).commitment, 2);
}

#[test]
fn subscriber_starts_by_connecting() {
    let subscriber = Subscriber::new(CommitmentLevel::Processed);
    assert_eq!(subscriber.phase, SubscriberPhase::Connecting);
    assert_eq!(subscriber.stage(), Stage::Connecting);
    assert_eq!(subscriber.request, block_subscription(CommitmentLevel::Processed));
}

#[test]
fn connection_failure_is_fatal() {
    let mut subscriber = Subscriber::new(CommitmentLevel::Confirmed);
    assert_eq!(
        subscriber.step(SubscriberEvent::ConnectFailed),
        Some(SubscriberAction::Fail(SubscriberError::Setup))
    );
    assert_eq!(subscriber.stage(), Stage::Failed);
    assert_eq!(subscriber.step(SubscriberEvent::Connected), None);
}

#[test]
fn refused_subscription_is_fatal() {
    let mut subscriber = Subscriber::new(CommitmentLevel::Confirmed);
    subscriber.step(SubscriberEvent::Connected);
    assert_eq!(
        subscriber.step(SubscriberEvent::SubscribeFailed),
        Some(SubscriberAction::Fail(SubscriberError::Subscribe))
    );
    assert_eq!(subscriber.phase, SubscriberPhase::Failed(SubscriberError::Subscribe));
}

#[test]
fn ping_is_answered_at_once() {
    let mut subscriber = streaming();
    assert_eq!(
        subscriber.step(SubscriberEvent::Message(Inbound::Ping)),
        Some(SubscriberAction::Pong { id: 1 })
    );
    assert_eq!(PONG_ID, 1);
    assert_eq!(subscriber.step(SubscriberEvent::PongSent), Some(SubscriberAction::Receive));
    assert_eq!(subscriber.stage(), Stage::Streaming);
}

#[test]
fn unanswered_ping_leads_to_reconnect() {
    let mut subscriber = streaming();
    subscriber.step(SubscriberEvent::Message(Inbound::Ping));
    assert_eq!(
        subscriber.step(SubscriberEvent::PongFailed),
        Some(SubscriberAction::Backoff { secs: 2 })
    );
    assert_eq!(subscriber.stage(), Stage::Reconnecting);
}

#[test]
fn block_is_forwarded_as_it_came() {
    let mut subscriber = streaming();
    let event = BlockEvent { slot: 77, produced_at: None };
    assert_eq!(
        subscriber.step(SubscriberEvent::Message(Inbound::Block(event))),
        Some(SubscriberAction::Forward(event))
    );
    assert_eq!(subscriber.step(SubscriberEvent::Forwarded), Some(SubscriberAction::Receive));
}

#[test]
fn lost_consumer_is_fatal() {
    let mut subscriber = streaming();
    subscriber.step(SubscriberEvent::Message(Inbound::Block(block(1))));
    assert_eq!(
        subscriber.step(SubscriberEvent::ForwardFailed),
        Some(SubscriberAction::Fail(SubscriberError::Forward))
    );
    assert_eq!(subscriber.stage(), Stage::Failed);
}

#[test]
fn other_messages_are_ignored() {
    let mut subscriber = streaming();
    assert_eq!(
        subscriber.step(SubscriberEvent::Message(Inbound::Other)),
        Some(SubscriberAction::Receive)
    );
    assert_eq!(subscriber.phase, SubscriberPhase::Streaming);
}

#[test]
fn stream_error_leads_to_the_same_request_after_a_fixed_wait() {
    let mut subscriber = streaming();
    let request = block_subscription(CommitmentLevel::Confirmed);
    assert_eq!(
        subscriber.step(SubscriberEvent::StreamError),
        Some(SubscriberAction::Backoff { secs: BACKOFF_SECS })
    );
    assert_eq!(BACKOFF_SECS, 2);
    assert_eq!(subscriber.stage(), Stage::Reconnecting);
    assert_eq!(subscriber.step(SubscriberEvent::BackoffElapsed), Some(SubscriberAction::Subscribe));
    assert_eq!(subscriber.request, request);
    assert_eq!(subscriber.step(SubscriberEvent::Subscribed), Some(SubscriberAction::Receive));
    assert_eq!(subscriber.stage(), Stage::Streaming);
    assert_eq!(
        subscriber.step(SubscriberEvent::Message(Inbound::Block(block(5)))),
        Some(SubscriberAction::Forward(block(5)))
    );
}

#[test]
fn every_break_is_retried_with_the_same_wait() {
    let mut subscriber = streaming();
    for _ in 0..50 {
        assert_eq!(
            subscriber.step(SubscriberEvent::StreamError),
            Some(SubscriberAction::Backoff { secs: 2 })
        );
        assert_eq!(subscriber.step(SubscriberEvent::BackoffElapsed), Some(SubscriberAction::Subscribe));
        assert_eq!(subscriber.step(SubscriberEvent::Subscribed), Some(SubscriberAction::Receive));
    }
    assert_eq!(subscriber.request, block_subscription(CommitmentLevel::Confirmed));
}

#[test]
fn blocks_around_a_break_are_forwarded_once_each_in_order() {
    let mut subscriber = streaming();
    let script = vec![
        SubscriberEvent::Message(Inbound::Block(block(1))),
        SubscriberEvent::Forwarded,
        SubscriberEvent::Message(Inbound::Ping),
        SubscriberEvent::PongSent,
        SubscriberEvent::Message(Inbound::Block(block(2))),
        SubscriberEvent::Forwarded,
        SubscriberEvent::StreamError,
        SubscriberEvent::BackoffElapsed,
        SubscriberEvent::Subscribed,
        SubscriberEvent::Message(Inbound::Other),
        SubscriberEvent::Message(Inbound::Block(block(3))),
        SubscriberEvent::Forwarded,
    ];
    let mut forwarded = Vec::new();
    for event in script {
        if let SubscriberAction::Forward(b) = subscriber.step(event).unwrap() {
            forwarded.push(b.slot);
        }
    }
    assert_eq!(forwarded, vec![1, 2, 3]);
}

#[test]
fn refused_subscription_after_a_break_is_fatal() {
    let mut subscriber = streaming();
    subscriber.step(SubscriberEvent::StreamError);
    subscriber.step(SubscriberEvent::BackoffElapsed);
    assert_eq!(
        subscriber.step(SubscriberEvent::SubscribeFailed),
        Some(SubscriberAction::Fail(SubscriberError::Subscribe))
    );
}

#[test]
fn closed_stream_ends_the_subscriber_in_good_order() {
    let mut subscriber = streaming();
    assert_eq!(subscriber.step(SubscriberEvent::StreamClosed), Some(SubscriberAction::Finish));
    assert_eq!(subscriber.stage(), Stage::Closed);
    assert_eq!(subscriber.step(SubscriberEvent::StreamError), None);
}

#[test]
fn event_out_of_turn_changes_nothing() {
    let mut subscriber = Subscriber::new(CommitmentLevel::Confirmed);
    assert_eq!(subscriber.step(SubscriberEvent::Message(Inbound::Ping)), None);
    assert_eq!(subscriber.step(SubscriberEvent::BackoffElapsed), None);
    assert_eq!(subscriber.phase, SubscriberPhase::Connecting);
    let mut subscriber = streaming();
    assert_eq!(subscriber.step(SubscriberEvent::Subscribed), None);
    assert_eq!(subscriber.step(SubscriberEvent::PongFailed), None);
    assert_eq!(subscriber.phase, SubscriberPhase::Streaming);
}
