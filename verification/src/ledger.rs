//! A model of what the persister does to its log over a whole run, and the
//! laws that hold of it.
//!
//! The [`Ledger`] follows a persister through a sequence of events. It keeps
//! the phase, the text that the buffer has accepted, how much of that text a
//! successful flush has pushed to the file, and how often a flush and a header
//! write were asked for. It moves by [`crate::persister::transition`] alone,
//! so what is proved of it is proved of [`crate::persister::Persister::step`].

use crate::decimal::{decimal, lemma_decimal_is_digits};
use crate::persister::{flush_due, header_text, line_text, transition, PersisterEvent, PersisterPhase};
use crate::recorder::LatencyRecord;
use vstd::prelude::*;

verus! {

/// The persister and its log at one moment of a run.
pub struct Ledger {
    pub phase: PersisterPhase,
    /// The text accepted by the buffer so far, in the order of acceptance.
    pub written: Seq<char>,
    /// The length of the prefix of `written` that the last successful flush
    /// pushed to the file.
    pub durable: nat,
    /// How many flushes were asked for.
    pub flushes: nat,
    /// How many times the header line was handed out for writing.
    pub header_writes: nat,
}

/// The ledger of a persister that has not opened its file yet.
pub open spec fn start() -> Ledger {
    Ledger {
        phase: PersisterPhase::Opening,
        written: Seq::empty(),
        durable: 0,
        flushes: 0,
        header_writes: 0,
    }
}

/// The ledger after one more event. An event that the persister does not
/// accept leaves the ledger as it is.
pub open spec fn advance(ledger: Ledger, event: PersisterEvent) -> Ledger {
    match transition(ledger.phase, event) {
        None => ledger,
        Some((next, action)) => {
            let written = match (ledger.phase, event) {
                (PersisterPhase::WritingHeader, PersisterEvent::Written) => ledger.written
                    + header_text(),
                (PersisterPhase::Writing(record), PersisterEvent::Written) => ledger.written
                    + line_text(record),
                _ => ledger.written,
            };
            Ledger {
                phase: next,
                written,
                durable: if event is Flushed {
                    written.len()
                } else {
                    ledger.durable
                },
                flushes: if action is Flush {
                    ledger.flushes + 1
                } else {
                    ledger.flushes
                },
                header_writes: if ledger.phase is Opening && action is Write {
                    ledger.header_writes + 1
                } else {
                    ledger.header_writes
                },
            }
        },
    }
}

/// The ledger after a sequence of events, taken in order.
pub open spec fn replay(ledger: Ledger, events: Seq<PersisterEvent>) -> Ledger
    decreases events.len(),
{
    if events.len() == 0 {
        ledger
    } else {
        advance(replay(ledger, events.drop_last()), events.last())
    }
}

/// The ledger of a persister whose file was opened and found `len` bytes long.
pub open spec fn opened(len: u64) -> Ledger {
    advance(start(), PersisterEvent::Opened { len })
}

/// Every event of the sequence answers what the persister was waiting for
/// when the event came.
pub open spec fn accepted(ledger: Ledger, events: Seq<PersisterEvent>) -> bool
    decreases events.len(),
{
    if events.len() == 0 {
        true
    } else {
        &&& accepted(ledger, events.drop_last())
        &&& transition(replay(ledger, events.drop_last()).phase, events.last()) is Some
    }
}

/// No event of the sequence reports a failed operation.
pub open spec fn faultless(events: Seq<PersisterEvent>) -> bool {
    forall|i: int|
        0 <= i < events.len() ==> !(#[trigger] events[i] is OpenFailed) && !(events[i]
            is WriteFailed) && !(events[i] is FlushFailed)
}

/// The records among the events, in order.
pub open spec fn records_in(events: Seq<PersisterEvent>) -> Seq<LatencyRecord>
    decreases events.len(),
{
    if events.len() == 0 {
        Seq::empty()
    } else {
        match events.last() {
            PersisterEvent::Record(record) => records_in(events.drop_last()).push(record),
            _ => records_in(events.drop_last()),
        }
    }
}

/// The lines of the records one after another, in order.
pub open spec fn lines(records: Seq<LatencyRecord>) -> Seq<char>
    decreases records.len(),
{
    if records.len() == 0 {
        Seq::empty()
    } else {
        lines(records.drop_last()) + line_text(records.last())
    }
}

/// How many of the records are followed by a flush.
pub open spec fn flushes_due(records: Seq<LatencyRecord>) -> nat
    decreases records.len(),
{
    if records.len() == 0 {
        0
    } else if flush_due(records.last().slot) {
        flushes_due(records.drop_last()) + 1
    } else {
        flushes_due(records.drop_last())
    }
}

/// The header line where the file was empty when opened, nothing otherwise.
pub open spec fn preamble(len: u64) -> Seq<char> {
    if len == 0 {
        header_text()
    } else {
        Seq::empty()
    }
}

/// The length of the text that is in the file after the records were
/// persisted without a fault: everything up to the last record that is
/// followed by a flush, or the preamble alone where there is none.
pub open spec fn durable_len(len: u64, records: Seq<LatencyRecord>) -> nat
    decreases records.len(),
{
    if records.len() == 0 {
        preamble(len).len()
    } else if flush_due(records.last().slot) {
        (preamble(len) + lines(records)).len()
    } else {
        durable_len(len, records.drop_last())
    }
}

/// What holds of the ledger in each phase of a run without faults, `records`
/// being the records that have arrived so far.
pub open spec fn consistent(ledger: Ledger, len: u64, records: Seq<LatencyRecord>) -> bool {
    let header_flush: nat = if len == 0 {
        1
    } else {
        0
    };
    match ledger.phase {
        PersisterPhase::Opening => false,
        PersisterPhase::WritingHeader => {
            &&& len == 0
            &&& records.len() == 0
            &&& ledger.written == Seq::<char>::empty()
            &&& ledger.flushes == 0
            &&& ledger.durable == 0
        },
        PersisterPhase::FlushingHeader => {
            &&& len == 0
            &&& records.len() == 0
            &&& ledger.written == header_text()
            &&& ledger.flushes == 1
            &&& ledger.durable == 0
        },
        PersisterPhase::Idle | PersisterPhase::Done => {
            &&& ledger.written == preamble(len) + lines(records)
            &&& ledger.flushes == header_flush + flushes_due(records)
            &&& ledger.durable == durable_len(len, records)
        },
        PersisterPhase::Writing(record) => {
            &&& records.len() > 0
            &&& records.last() == record
            &&& ledger.written == preamble(len) + lines(records.drop_last())
            &&& ledger.flushes == header_flush + flushes_due(records.drop_last())
            &&& ledger.durable == durable_len(len, records.drop_last())
        },
        PersisterPhase::Flushing => {
            &&& records.len() > 0
            &&& flush_due(records.last().slot)
            &&& ledger.written == preamble(len) + lines(records)
            &&& ledger.flushes == header_flush + flushes_due(records)
            &&& ledger.durable == durable_len(len, records.drop_last())
        },
        PersisterPhase::Failed => false,
    }
}

/// A run without faults keeps the ledger consistent with the records that
/// have arrived.
pub proof fn lemma_faultless_run_is_consistent(len: u64, events: Seq<PersisterEvent>)
    requires
        faultless(events),
        accepted(opened(len), events),
    ensures
        consistent(replay(opened(len), events), len, records_in(events)),
    decreases events.len(),
{
    if events.len() == 0 {
        assert(lines(Seq::<LatencyRecord>::empty()) =~= Seq::<char>::empty());
        if len == 0 {
            assert(opened(len).written =~= Seq::<char>::empty());
        } else {
            assert(opened(len).written =~= preamble(len) + lines(records_in(events)));
        }
    } else {
        let earlier = events.drop_last();
        let event = events.last();
        assert(faultless(earlier)) by {
            assert forall|i: int| 0 <= i < earlier.len() implies !(#[trigger] earlier[i]
                is OpenFailed) && !(earlier[i] is WriteFailed) && !(earlier[i]
                is FlushFailed) by {
                assert(earlier[i] == events[i]);
            }
        }
        lemma_faultless_run_is_consistent(len, earlier);
        let before = replay(opened(len), earlier);
        let after = replay(opened(len), events);
        let records = records_in(earlier);
        assert(after == advance(before, event));
        assert(!(event is OpenFailed) && !(event is WriteFailed) && !(event is FlushFailed)) by {
            assert(event == events[events.len() - 1]);
        }
        match event {
            PersisterEvent::Record(record) => {
                assert(records_in(events) == records.push(record));
                assert(records.push(record).drop_last() =~= records);
            },
            PersisterEvent::Written => {
                match before.phase {
                    PersisterPhase::WritingHeader => {
                        assert(after.written =~= header_text());
                    },
                    PersisterPhase::Writing(record) => {
                        assert(after.written =~= preamble(len) + lines(records)) by {
                            assert(lines(records) == lines(records.drop_last()) + line_text(
                                record,
                            ));
                        }
                    },
                    _ => {},
                }
            },
            PersisterEvent::Flushed => {
                match before.phase {
                    PersisterPhase::FlushingHeader => {
                        assert(after.written =~= preamble(len) + lines(records));
                    },
                    _ => {},
                }
            },
            _ => {},
        }
    }
}

/// The header line is handed out for writing exactly once where the file was
/// empty when opened, and never where it held anything, whatever happens
/// afterwards.
pub proof fn lemma_header_written_once(len: u64, events: Seq<PersisterEvent>)
    ensures
        replay(opened(len), events).header_writes == (if len == 0 {
            1nat
        } else {
            0nat
        }),
        !(replay(opened(len), events).phase is Opening),
    decreases events.len(),
{
    if events.len() > 0 {
        lemma_header_written_once(len, events.drop_last());
    }
}

/// Order and cadence of a run without faults. Once every record that arrived
/// has been dealt with, the log has received the header (where the file was
/// empty when opened) and then one line per record, in the order of arrival;
/// a flush was asked for once after the header and once after each record
/// whose slot is a multiple of ten; and the file holds everything up to the
/// last such record.
pub proof fn lemma_faultless_run(len: u64, events: Seq<PersisterEvent>)
    requires
        faultless(events),
        accepted(opened(len), events),
        replay(opened(len), events).phase is Idle || replay(opened(len), events).phase is Done,
    ensures
        replay(opened(len), events).written == preamble(len) + lines(records_in(events)),
        replay(opened(len), events).flushes == (if len == 0 {
            1nat
        } else {
            0nat
        }) + flushes_due(records_in(events)),
        replay(opened(len), events).durable == durable_len(len, records_in(events)),
{
    lemma_faultless_run_is_consistent(len, events);
}

/// The records among the events whose line the buffer accepted: each record
/// that is followed at once by the report of a successful write.
pub open spec fn persisted_in(events: Seq<PersisterEvent>) -> Seq<LatencyRecord>
    decreases events.len(),
{
    if events.len() < 2 {
        Seq::empty()
    } else {
        let earlier = events.drop_last();
        match (earlier.last(), events.last()) {
            (PersisterEvent::Record(record), PersisterEvent::Written) => persisted_in(
                earlier,
            ).push(record),
            _ => persisted_in(earlier),
        }
    }
}

/// What holds of the ledger in each phase of any run, with or without
/// failures, `events` being what has happened since the file was opened.
pub open spec fn in_step(ledger: Ledger, len: u64, events: Seq<PersisterEvent>) -> bool {
    let kept = persisted_in(events);
    let header_flush: nat = if len == 0 {
        1
    } else {
        0
    };
    match ledger.phase {
        PersisterPhase::Opening => false,
        PersisterPhase::WritingHeader => {
            &&& len == 0
            &&& events.len() == 0
            &&& ledger.written == Seq::<char>::empty()
            &&& ledger.flushes == 0
        },
        PersisterPhase::FlushingHeader => {
            &&& len == 0
            &&& events.len() == 1
            &&& ledger.written == header_text()
            &&& ledger.flushes == 1
        },
        PersisterPhase::Idle | PersisterPhase::Done => {
            &&& ledger.written == preamble(len) + lines(kept)
            &&& ledger.flushes == header_flush + flushes_due(kept)
        },
        PersisterPhase::Writing(record) => {
            &&& events.len() > 0
            &&& events.last() == PersisterEvent::Record(record)
            &&& ledger.written == preamble(len) + lines(kept)
            &&& ledger.flushes == header_flush + flushes_due(kept)
        },
        PersisterPhase::Flushing => {
            &&& kept.len() > 0
            &&& flush_due(kept.last().slot)
            &&& ledger.written == preamble(len) + lines(kept)
            &&& ledger.flushes == header_flush + flushes_due(kept)
        },
        PersisterPhase::Failed => true,
    }
}

/// Any run keeps the ledger in step with the records whose line was
/// accepted.
pub proof fn lemma_run_is_in_step(len: u64, events: Seq<PersisterEvent>)
    requires
        accepted(opened(len), events),
    ensures
        in_step(replay(opened(len), events), len, events),
    decreases events.len(),
{
    assert(lines(Seq::<LatencyRecord>::empty()) =~= Seq::<char>::empty());
    if events.len() == 0 {
        if len == 0 {
            assert(opened(len).written =~= Seq::<char>::empty());
        } else {
            assert(opened(len).written =~= preamble(len) + lines(persisted_in(events)));
        }
    } else {
        let earlier = events.drop_last();
        let event = events.last();
        lemma_run_is_in_step(len, earlier);
        let before = replay(opened(len), earlier);
        let after = replay(opened(len), events);
        let kept = persisted_in(earlier);
        assert(after == advance(before, event));
        match (before.phase, event) {
            (PersisterPhase::WritingHeader, PersisterEvent::Written) => {
                assert(after.written =~= header_text());
            },
            (PersisterPhase::FlushingHeader, PersisterEvent::Flushed) => {
                assert(persisted_in(earlier.drop_last()) =~= Seq::<LatencyRecord>::empty());
                assert(after.written =~= preamble(len) + lines(persisted_in(events)));
            },
            (PersisterPhase::Writing(record), PersisterEvent::Written) => {
                assert(persisted_in(events) == kept.push(record));
                assert(kept.push(record).drop_last() =~= kept);
                assert(after.written =~= preamble(len) + lines(kept.push(record)));
            },
            _ => {},
        }
    }
}

/// Order, whatever fails. Once the persister awaits the next record or has
/// ended in good order, the log has received the header (where the file was
/// empty when opened) and then one line for each record whose write
/// succeeded, in the order of arrival; a record whose write failed has left
/// nothing, and was not tried again. A flush was asked for once after the
/// header and once after each such record whose slot is a multiple of ten,
/// whether or not an earlier flush had failed.
pub proof fn lemma_run_with_failures(len: u64, events: Seq<PersisterEvent>)
    requires
        accepted(opened(len), events),
        replay(opened(len), events).phase is Idle || replay(opened(len), events).phase is Done,
    ensures
        replay(opened(len), events).written == preamble(len) + lines(persisted_in(events)),
        replay(opened(len), events).flushes == (if len == 0 {
            1nat
        } else {
            0nat
        }) + flushes_due(persisted_in(events)),
{
    lemma_run_is_in_step(len, events);
}

/// Where nothing fails, no record is passed over: every record that has
/// arrived has had its line accepted, but for the one that is being written.
pub proof fn lemma_faultless_run_keeps_every_record(len: u64, events: Seq<PersisterEvent>)
    requires
        faultless(events),
        accepted(opened(len), events),
    ensures
        match replay(opened(len), events).phase {
            PersisterPhase::Writing(record) => records_in(events) == persisted_in(events).push(
                record,
            ),
            _ => records_in(events) == persisted_in(events),
        },
    decreases events.len(),
{
    if events.len() > 0 {
        let earlier = events.drop_last();
        let event = events.last();
        assert(faultless(earlier)) by {
            assert forall|i: int| 0 <= i < earlier.len() implies !(#[trigger] earlier[i]
                is OpenFailed) && !(earlier[i] is WriteFailed) && !(earlier[i]
                is FlushFailed) by {
                assert(earlier[i] == events[i]);
            }
        }
        assert(!(event is OpenFailed) && !(event is WriteFailed) && !(event is FlushFailed)) by {
            assert(event == events[events.len() - 1]);
        }
        lemma_faultless_run_keeps_every_record(len, earlier);
        lemma_run_is_in_step(len, earlier);
        assert(replay(opened(len), events) == advance(replay(opened(len), earlier), event));
    }
}

/// What the buffer has accepted never shrinks and is never rewritten: after
/// any further events, accepted or not, failed or not, the text accepted
/// before is a prefix of the text accepted after.
pub proof fn lemma_log_only_grows(ledger: Ledger, events: Seq<PersisterEvent>)
    ensures
        ledger.written.is_prefix_of(replay(ledger, events).written),
    decreases events.len(),
{
    if events.len() == 0 {
        assert(ledger.written.subrange(0, ledger.written.len() as int) =~= ledger.written);
    } else {
        lemma_log_only_grows(ledger, events.drop_last());
        let before = replay(ledger, events.drop_last());
        let after = advance(before, events.last());
        assert(after.written.subrange(0, before.written.len() as int) =~= before.written);
        assert(after.written.subrange(0, ledger.written.len() as int) =~= before.written.subrange(
            0,
            ledger.written.len() as int,
        ));
    }
}

/// The file never holds more than the buffer has accepted, and what it holds
/// it keeps: over any events the durable prefix does not shrink and stays
/// within the accepted text.
pub proof fn lemma_durable_within_written(ledger: Ledger, events: Seq<PersisterEvent>)
    requires
        ledger.durable <= ledger.written.len(),
    ensures
        ledger.durable <= replay(ledger, events).durable <= replay(ledger, events).written.len(),
    decreases events.len(),
{
    if events.len() > 0 {
        lemma_durable_within_written(ledger, events.drop_last());
    }
}

/// How many line feeds a text holds.
pub open spec fn line_feeds(text: Seq<char>) -> nat
    decreases text.len(),
{
    if text.len() == 0 {
        0
    } else if text.last() == '\n' {
        line_feeds(text.drop_last()) + 1
    } else {
        line_feeds(text.drop_last())
    }
}

/// The line feeds of two texts add up.
pub proof fn lemma_line_feeds_add(first: Seq<char>, second: Seq<char>)
    ensures
        line_feeds(first + second) == line_feeds(first) + line_feeds(second),
    decreases second.len(),
{
    if second.len() == 0 {
        assert(first + second =~= first);
    } else {
        let whole = first + second;
        assert(whole.drop_last() =~= first + second.drop_last());
        assert(whole.last() == second.last());
        lemma_line_feeds_add(first, second.drop_last());
    }
}

/// A text without a line feed in it.
pub open spec fn one_line(text: Seq<char>) -> bool {
    forall|i: int| 0 <= i < text.len() ==> #[trigger] text[i] != '\n'
}

/// A text without a line feed in it counts none.
pub proof fn lemma_one_line_has_no_line_feed(text: Seq<char>)
    requires
        one_line(text),
    ensures
        line_feeds(text) == 0,
    decreases text.len(),
{
    if text.len() > 0 {
        assert(text.last() == text[text.len() - 1]);
        assert forall|i: int| 0 <= i < text.drop_last().len() implies #[trigger] text.drop_last()[i]
            != '\n' by {
            assert(text.drop_last()[i] == text[i]);
        }
        lemma_one_line_has_no_line_feed(text.drop_last());
    }
}

/// The line of a record is one line: its only line feed is its last
/// character.
pub proof fn lemma_record_line_is_one_line(record: LatencyRecord)
    ensures
        line_text(record).len() >= 4,
        line_text(record).last() == '\n',
        one_line(line_text(record).drop_last()),
        line_feeds(line_text(record)) == 1,
{
    let slot = decimal(record.slot as nat);
    let time = decimal(record.time as nat);
    lemma_decimal_is_digits(record.slot as nat);
    lemma_decimal_is_digits(record.time as nat);
    let body = slot.push(',') + time;
    assert(line_text(record) == body.push('\n'));
    assert(body.push('\n').drop_last() =~= body);
    assert forall|i: int| 0 <= i < body.len() implies #[trigger] body[i] != '\n' by {
        if i < slot.len() {
            assert(body[i] == slot[i]);
        } else if i == slot.len() {
            assert(body[i] == ',');
        } else {
            assert(body[i] == time[i - slot.len() - 1]);
        }
    }
    lemma_one_line_has_no_line_feed(body);
}

/// The lines of `n` records are `n` lines.
pub proof fn lemma_one_line_per_record(records: Seq<LatencyRecord>)
    ensures
        line_feeds(lines(records)) == records.len(),
    decreases records.len(),
{
    if records.len() > 0 {
        lemma_one_line_per_record(records.drop_last());
        lemma_record_line_is_one_line(records.last());
        lemma_line_feeds_add(lines(records.drop_last()), line_text(records.last()));
    }
}

} // verus!
