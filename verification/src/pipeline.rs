//! The pipeline as a whole: subscriber, recorder and persister, joined by two
//! queues.
//!
//! The subscriber hands block notifications to the recorder over a queue
//! without bound, so that a slow recorder never keeps the subscriber from
//! answering liveness probes; the price is memory when the recorder falls
//! behind. The recorder hands records to the persister over a queue of
//! [`RECORD_QUEUE_CAPACITY`] places and waits when it is full, so that a slow
//! disk holds the recorder back instead of filling memory. Both queues keep
//! the order in which they were filled.

use crate::ledger;
use crate::ledger::{faultless, lemma_faultless_run, lines, opened, preamble, records_in};
use crate::persister::PersisterEvent;
use crate::recorder::{
    lemma_every_timed_arrival_is_measured, measured, stored_millis, Arrival, BlockEvent,
    ClockReading, LatencyRecord, MeasurementView,
};
use crate::subscriber::{Subscriber, SubscriberEvent};
use crate::subscriber_run;
use crate::subscriber_run::{actions, delivered, forwarded, lemma_forwards_what_is_delivered};
use vstd::prelude::*;

verus! {

/// The number of records that can wait between the recorder and the persister.
pub const RECORD_QUEUE_CAPACITY: usize = 100;

/// The records of a sequence of measurements, in order.
pub open spec fn records_of(measurements: Seq<MeasurementView>) -> Seq<LatencyRecord> {
    Seq::new(measurements.len(), |i: int| measurements[i].record)
}

/// The arrivals at the recorder: each block notification with the clock
/// reading taken at its receipt.
pub open spec fn arrivals_of(blocks: Seq<BlockEvent>, clocks: Seq<ClockReading>) -> Seq<Arrival>
    recommends
        blocks.len() == clocks.len(),
{
    Seq::new(blocks.len(), |i: int| Arrival { event: blocks[i], clock: Some(clocks[i]) })
}

/// The records that block notifications received at the given clock readings
/// stand for.
pub open spec fn expected_records(blocks: Seq<BlockEvent>, clocks: Seq<ClockReading>) -> Seq<
    LatencyRecord,
>
    recommends
        blocks.len() == clocks.len(),
{
    Seq::new(
        blocks.len(),
        |i: int| LatencyRecord { slot: blocks[i].slot, time: stored_millis(clocks[i].millis) },
    )
}

/// Order from end to end. Let the source deliver block notifications that all
/// carry a production time, over a run of the subscriber in which every event
/// is accepted; let the recorder take what the subscriber forwards, in that
/// order, reading the clock for each; and let the persister take the
/// recorder's records, in that order, and deal with all of them without a
/// fault. Then the log has received, after the header where the file was
/// empty, exactly one line for each notification that the source delivered,
/// in the order of delivery.
pub proof fn lemma_log_follows_delivery(
    subscriber: Subscriber,
    stream: Seq<SubscriberEvent>,
    clocks: Seq<ClockReading>,
    len: u64,
    log_events: Seq<PersisterEvent>,
)
    requires
        subscriber_run::accepted(subscriber, stream),
        clocks.len() == delivered(stream).len(),
        forall|i: int|
            0 <= i < delivered(stream).len() ==> (#[trigger] delivered(stream)[i]).produced_at
                is Some,
        faultless(log_events),
        ledger::accepted(opened(len), log_events),
        ledger::replay(opened(len), log_events).phase is Idle || ledger::replay(
            opened(len),
            log_events,
        ).phase is Done,
        records_in(log_events) == records_of(
            measured(arrivals_of(forwarded(actions(subscriber, stream)), clocks)),
        ),
    ensures
        records_in(log_events) == expected_records(delivered(stream), clocks),
        ledger::replay(opened(len), log_events).written == preamble(len) + lines(
            expected_records(delivered(stream), clocks),
        ),
{
    lemma_forwards_what_is_delivered(subscriber, stream);
    let blocks = delivered(stream);
    let arrivals = arrivals_of(blocks, clocks);
    lemma_every_timed_arrival_is_measured(arrivals);
    assert(records_of(measured(arrivals)) =~= expected_records(blocks, clocks)) by {
        assert forall|i: int| 0 <= i < blocks.len() implies #[trigger] records_of(
            measured(arrivals),
        )[i] == expected_records(blocks, clocks)[i] by {
            assert(arrivals[i].event == blocks[i]);
            assert(blocks[i].produced_at is Some);
        }
    }
    lemma_faultless_run(len, log_events);
}

} // verus!
