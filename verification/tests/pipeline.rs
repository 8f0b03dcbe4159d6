use block_latency::persister::{Persister, PersisterAction, PersisterEvent};
use block_latency::pipeline::RECORD_QUEUE_CAPACITY;
use block_latency::recorder::{process_block, BlockEvent, ClockReading};
use block_latency::subscriber::{
    CommitmentLevel, Inbound, Subscriber, SubscriberAction, SubscriberEvent,
};

/// What a run of the whole pipeline leaves behind.
struct Outcome {
    entries: Vec<(u64, String)>,
    file: String,
    buffer: String,
    flushed_after: Vec<u64>,
}

/// Feeds the blocks through subscriber, recorder and persister, with a clock
/// that stands at `now` seconds and a log that accepts every operation.
fn feed(blocks: &[BlockEvent], now: u64) -> Outcome {
    let mut outcome =
        Outcome { entries: Vec::new(), file: String::new(), buffer: String::new(), flushed_after: Vec::new() };
    let mut subscriber = Subscriber::new(CommitmentLevel::Confirmed);
    assert_eq!(subscriber.step(SubscriberEvent::Connected), Some(SubscriberAction::Subscribe));
    assert_eq!(subscriber.step(SubscriberEvent::Subscribed), Some(SubscriberAction::Receive));
    let mut persister = Persister::new();
    let mut answer = persister.step(PersisterEvent::Opened { len: 0 });
    let mut millis = now as u128 * 1000;
    let mut pending = blocks.iter();
    let mut last_slot = 0;
    loop {
        let event = match answer.expect("the event answers the persister") {
            PersisterAction::Write(text) => {
                outcome.buffer.push_str(&text);
                PersisterEvent::Written
            }
            PersisterAction::Flush => {
                outcome.file.push_str(&outcome.buffer);
                outcome.buffer.clear();
                outcome.flushed_after.push(last_slot);
                PersisterEvent::Flushed
            }
            PersisterAction::Receive => loop {
                let Some(block) = pending.next() else {
                    break PersisterEvent::InputClosed;
                };
                let forwarded = match subscriber.step(SubscriberEvent::Message(Inbound::Block(*block))) {
                    Some(SubscriberAction::Forward(forwarded)) => forwarded,
                    other => panic!("block was not forwarded: {:?}", other),
                };
                assert_eq!(subscriber.step(SubscriberEvent::Forwarded), Some(SubscriberAction::Receive));
                millis += 1;
                let clock = ClockReading { secs: now, millis };
                if let Ok(measurement) = process_block(&forwarded, Some(clock)) {
                    outcome.entries.push((measurement.record.slot, measurement.delta));
                    last_slot = measurement.record.slot;
                    break PersisterEvent::Record(measurement.record);
                }
            },
            PersisterAction::Finish => return outcome,
            PersisterAction::Abort => panic!("nothing failed"),
        };
        answer = persister.step(event);
    }
}

#[test]
fn records_wait_in_a_queue_of_a_hundred() {
    assert_eq!(RECORD_QUEUE_CAPACITY, 100);
}

#[test]
fn end_to_end_three_blocks_one_without_timestamp() {
    let now: u64 = 1_700_000_000;
    let blocks = [
        BlockEvent { slot: 100, produced_at: Some(now as i64 - 5) },
        BlockEvent { slot: 101, produced_at: None },
        BlockEvent { slot: 110, produced_at: Some(now as i64 - 70) },
    ];
    let outcome = feed(&blocks, now);
    assert_eq!(
        outcome.entries,
        vec![(100, String::from("5s")), (110, String::from("1m10s"))]
    );
    assert_eq!(
        outcome.file,
        "block,time\n100,1700000000001\n110,1700000000003\n"
    );
    assert_eq!(outcome.buffer, "");
    assert_eq!(outcome.flushed_after, vec![0, 100, 110]);
}

#[test]
fn end_to_end_order_is_kept() {
    let blocks: Vec<BlockEvent> =
        [5u64, 3, 9, 1, 7].iter().map(|slot| BlockEvent { slot: *slot, produced_at: Some(1) }).collect();
    let outcome = feed(&blocks, 100);
    let slots: Vec<u64> = outcome.entries.iter().map(|entry| entry.0).collect();
    assert_eq!(slots, vec![5, 3, 9, 1, 7]);
    assert_eq!(outcome.file, "block,time\n");
    assert_eq!(outcome.buffer, "5,100001\n3,100002\n9,100003\n1,100004\n7,100005\n");
}

#[test]
fn end_to_end_block_without_timestamp_leaves_no_trace() {
    let blocks = [BlockEvent { slot: 20, produced_at: None }];
    let outcome = feed(&blocks, 100);
    assert!(outcome.entries.is_empty());
    assert_eq!(outcome.file, "block,time\n");
    assert_eq!(outcome.buffer, "");
}
