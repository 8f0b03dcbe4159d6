//! The latency recorder: turns block arrivals into latency records and
//! human-readable age descriptions.
//!
//! A block notification carries the slot and, optionally, the time at which
//! the block was produced. The recorder pairs it with a wall-clock reading
//! taken at receipt. Notifications without a production time, and those for
//! which the clock could not be read, are dropped without a trace.

use crate::decimal::{decimal, push_decimal, signed_decimal};
use vstd::prelude::*;

verus! {

/// One block notification from the source.
#[derive(Clone, Copy, Debug, PartialEq, Eq)]
pub struct BlockEvent {
    pub slot: u64,
    /// Production time in seconds since the Unix epoch, where the source gave one.
    pub produced_at: Option<i64>,
}

/// A wall-clock reading taken when a notification is received: whole seconds
/// and whole milliseconds since the Unix epoch. The two fields are separate
/// readings; nothing here relies on them describing the same instant.
#[derive(Clone, Copy, Debug, PartialEq, Eq)]
pub struct ClockReading {
    pub secs: u64,
    pub millis: u128,
}

/// What is persisted for one block: its slot and the time of receipt in
/// milliseconds since the Unix epoch.
#[derive(Clone, Copy, Debug, PartialEq, Eq)]
pub struct LatencyRecord {
    pub slot: u64,
    pub time: u64,
}

/// The outcome of recording one notification: the record to persist, and the
/// age description for the log entry that accompanies it.
#[derive(Debug, PartialEq, Eq)]
pub struct Measurement {
    pub record: LatencyRecord,
    pub delta: String,
}

/// The mathematical content of a [`Measurement`].
pub struct MeasurementView {
    pub record: LatencyRecord,
    pub delta: Seq<char>,
}

impl View for Measurement {
    type V = MeasurementView;

    open spec fn view(&self) -> MeasurementView {
        MeasurementView { record: self.record, delta: self.delta@ }
    }
}

/// Why a notification left no record and no log entry.
#[derive(Clone, Copy, Debug, PartialEq, Eq)]
pub enum Skipped {
    /// The notification carried no production time.
    NoTimestamp,
    /// The wall clock could not be read.
    ClockUnavailable,
}

/// A notification together with the clock reading taken at its receipt
/// (`None` where reading the clock failed).
#[derive(Clone, Copy, Debug, PartialEq, Eq)]
pub struct Arrival {
    pub event: BlockEvent,
    pub clock: Option<ClockReading>,
}

/// Age of a block in seconds: receipt time minus production time.
pub open spec fn age_seconds(now_secs: u64, produced_at: i64) -> int {
    now_secs - produced_at
}

/// The age description: `"{s}s"` below one minute (negative ages included),
/// `"{m}m{s}s"` from one minute on.
pub open spec fn delta_text(age: int) -> Seq<char> {
    if age < 60 {
        signed_decimal(age).push('s')
    } else {
        (decimal((age / 60) as nat).push('m') + decimal((age % 60) as nat)).push('s')
    }
}

/// A millisecond count reduced to 64 bits, as a narrowing conversion does.
pub open spec fn stored_millis(millis: u128) -> u64 {
    (millis % 0x1_0000_0000_0000_0000) as u64
}

/// What recording one notification yields.
pub open spec fn measurement_of(event: BlockEvent, clock: Option<ClockReading>) -> Result<
    MeasurementView,
    Skipped,
> {
    match (event.produced_at, clock) {
        (None, _) => Err(Skipped::NoTimestamp),
        (Some(_), None) => Err(Skipped::ClockUnavailable),
        (Some(produced_at), Some(now)) => Ok(
            MeasurementView {
                record: LatencyRecord { slot: event.slot, time: stored_millis(now.millis) },
                delta: delta_text(age_seconds(now.secs, produced_at)),
            },
        ),
    }
}

/// The measurements that a sequence of arrivals yields, in arrival order.
pub open spec fn measured(arrivals: Seq<Arrival>) -> Seq<MeasurementView>
    decreases arrivals.len(),
{
    if arrivals.len() == 0 {
        Seq::empty()
    } else {
        let earlier = measured(arrivals.drop_last());
        match measurement_of(arrivals.last().event, arrivals.last().clock) {
            Ok(m) => earlier.push(m),
            Err(_) => earlier,
        }
    }
}

/// Formats an age in seconds for the log entry.
pub fn format_delta(age_secs: i128) -> (text: String)
    ensures
        text@ == delta_text(age_secs as int),
{
    proof {
        reveal_strlit("-");
        reveal_strlit("m");
        reveal_strlit("s");
    }
    let mut text = String::new();
    if age_secs < 60 {
        if age_secs < 0 {
            let magnitude: u128 = (-(age_secs + 1)) as u128 + 1;
            text.append("-");
            push_decimal(&mut text, magnitude);
        } else {
            push_decimal(&mut text, age_secs as u128);
        }
    } else {
        let minutes: u128 = (age_secs / 60) as u128;
        let seconds: u128 = (age_secs % 60) as u128;
        push_decimal(&mut text, minutes);
        text.append("m");
        push_decimal(&mut text, seconds);
    }
    text.append("s");
    assert(text@ =~= delta_text(age_secs as int));
    text
}

/// Records one notification received at `clock`.
///
/// Returns the record and the age description, or the reason why the
/// notification is dropped: no production time, or no clock reading.
pub fn process_block(event: &BlockEvent, clock: Option<ClockReading>) -> (res: Result<
    Measurement,
    Skipped,
>)
    ensures
        match measurement_of(*event, clock) {
            Ok(m) => res matches Ok(got) && got@ == m,
            Err(why) => res == Err::<Measurement, Skipped>(why),
        },
{
    let produced_at = match event.produced_at {
        Some(ts) => ts,
        None => {
            return Err(Skipped::NoTimestamp);
        },
    };
    let now = match clock {
        Some(now) => now,
        None => {
            return Err(Skipped::ClockUnavailable);
        },
    };
    let age_secs: i128 = now.secs as i128 - produced_at as i128;
    let delta = format_delta(age_secs);
    let time: u64 = (now.millis % 0x1_0000_0000_0000_0000u128) as u64;
    Ok(Measurement { record: LatencyRecord { slot: event.slot, time }, delta })
}

/// Records a whole sequence of arrivals: one measurement for each arrival
/// that has a production time and a clock reading, in arrival order.
pub fn process(arrivals: &Vec<Arrival>) -> (out: Vec<Measurement>)
    ensures
        out@.len() == measured(arrivals@).len(),
        forall|i: int| 0 <= i < out@.len() ==> (#[trigger] out@[i])@ == measured(arrivals@)[i],
{
    let mut out: Vec<Measurement> = Vec::new();
    let mut k: usize = 0;
    while k < arrivals.len()
        invariant
            k <= arrivals.len(),
            out@.len() == measured(arrivals@.take(k as int)).len(),
            forall|i: int|
                0 <= i < out@.len() ==> (#[trigger] out@[i])@ == measured(
                    arrivals@.take(k as int),
                )[i],
        decreases arrivals.len() - k,
    {
        let arrival = &arrivals[k];
        proof {
            let next = arrivals@.take(k as int + 1);
            assert(next.drop_last() =~= arrivals@.take(k as int));
            assert(next.last() == arrivals@[k as int]);
        }
        match process_block(&arrival.event, arrival.clock) {
            Ok(m) => {
                out.push(m);
            },
            Err(_) => {},
        }
        k = k + 1;
    }
    assert(arrivals@.take(k as int) =~= arrivals@);
    out
}

/// Recording goes arrival by arrival: the measurements of two runs of
/// arrivals, one after the other, are those of the first followed by those of
/// the second.
pub proof fn lemma_measured_in_turn(first: Seq<Arrival>, second: Seq<Arrival>)
    ensures
        measured(first + second) == measured(first) + measured(second),
    decreases second.len(),
{
    if second.len() == 0 {
        assert(first + second =~= first);
        assert(measured(first) + measured(second) =~= measured(first));
    } else {
        let whole = first + second;
        assert(whole.drop_last() =~= first + second.drop_last());
        assert(whole.last() == second.last());
        lemma_measured_in_turn(first, second.drop_last());
        assert(measured(whole) =~= measured(first) + measured(second));
    }
}

/// A notification without a production time leaves no trace: among any
/// arrivals, before and after it, the measurements are what they would be had
/// it never arrived. The same holds of a notification for which the clock
/// could not be read.
pub proof fn lemma_skipped_arrival_leaves_no_trace(
    before: Seq<Arrival>,
    arrival: Arrival,
    later: Seq<Arrival>,
)
    requires
        arrival.event.produced_at is None || arrival.clock is None,
    ensures
        measurement_of(arrival.event, arrival.clock) is Err,
        measured(seq![arrival]) == Seq::<MeasurementView>::empty(),
        measured(before + seq![arrival] + later) == measured(before + later),
{
    let alone = seq![arrival];
    assert(alone.drop_last() =~= Seq::<Arrival>::empty());
    assert(measured(alone.drop_last()) =~= Seq::<MeasurementView>::empty());
    assert(measured(alone) =~= Seq::<MeasurementView>::empty());
    lemma_measured_in_turn(before, alone);
    lemma_measured_in_turn(before + alone, later);
    lemma_measured_in_turn(before, later);
    assert(measured(before) + measured(alone) =~= measured(before));
}

/// Where every notification carries a production time and the clock can be
/// read each time, every arrival is measured: there are as many measurements
/// as arrivals, and each holds the slot of its arrival, the receipt time in
/// milliseconds, and the description of the block's age, in arrival order.
pub proof fn lemma_every_timed_arrival_is_measured(arrivals: Seq<Arrival>)
    requires
        forall|i: int|
            0 <= i < arrivals.len() ==> (#[trigger] arrivals[i]).event.produced_at is Some
                && arrivals[i].clock is Some,
    ensures
        measured(arrivals).len() == arrivals.len(),
        forall|i: int|
            0 <= i < arrivals.len() ==> measurement_of(
                arrivals[i].event,
                arrivals[i].clock,
            ) == Ok::<MeasurementView, Skipped>(#[trigger] measured(arrivals)[i]),
    decreases arrivals.len(),
{
    if arrivals.len() > 0 {
        let earlier = arrivals.drop_last();
        assert forall|i: int| 0 <= i < earlier.len() implies (#[trigger] earlier[i]).event.produced_at
            is Some && earlier[i].clock is Some by {
            assert(earlier[i] == arrivals[i]);
        }
        lemma_every_timed_arrival_is_measured(earlier);
        let last = arrivals.last();
        assert(last == arrivals[arrivals.len() - 1]);
        assert forall|i: int| 0 <= i < arrivals.len() implies measurement_of(
            arrivals[i].event,
            arrivals[i].clock,
        ) == Ok::<MeasurementView, Skipped>(#[trigger] measured(arrivals)[i]) by {
            if i < earlier.len() {
                assert(earlier[i] == arrivals[i]);
                assert(measured(arrivals)[i] == measured(earlier)[i]);
            }
        }
    }
}

} // verus!
