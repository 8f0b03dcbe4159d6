//! The durable persister: appends latency records to an append-only log.
//!
//! The persister owns the log file. It writes a header line once, if the file
//! was empty when it was opened, then one line per record. Output goes through
//! a buffer that is flushed only after a record whose slot is a multiple of
//! ten. A failed write or flush of a record is not fatal: the record is given
//! up and the next one is awaited.
//!
//! The file itself is outside this module. The module holds the decisions, as
//! a state machine: [`Persister::step`] takes what just happened and returns
//! what to do next.

use crate::decimal::{decimal, push_decimal};
use crate::recorder::LatencyRecord;
use vstd::prelude::*;

verus! {

/// A flush follows every record whose slot is a multiple of this.
pub const FLUSH_INTERVAL: u64 = 10;

/// The header line, written once to an empty log.
pub open spec fn header_text() -> Seq<char> {
    "block,time\n"@
}

/// The line that a record contributes: `slot,time` and a line feed.
pub open spec fn line_text(record: LatencyRecord) -> Seq<char> {
    (decimal(record.slot as nat).push(',') + decimal(record.time as nat)).push('\n')
}

/// Whether the buffer is flushed after a record of this slot is written.
pub open spec fn flush_due(slot: u64) -> bool {
    slot % FLUSH_INTERVAL == 0
}

/// Where the persister stands.
#[derive(Clone, Copy, Debug, PartialEq, Eq)]
pub enum PersisterPhase {
    /// The log file is being opened and its length read.
    Opening,
    /// The header line is being written.
    WritingHeader,
    /// The header line is being flushed.
    FlushingHeader,
    /// The next record is awaited.
    Idle,
    /// The line of this record is being written.
    Writing(LatencyRecord),
    /// The buffer is being flushed after a record.
    Flushing,
    /// The input queue was closed; the persister has ended in good order.
    Done,
    /// Opening the file or writing its header failed; the persister has ended.
    Failed,
}

/// What just happened, as the driver reports it.
#[derive(Clone, Copy, Debug, PartialEq, Eq)]
pub enum PersisterEvent {
    /// The file is open (created if it was absent) and holds `len` bytes.
    Opened { len: u64 },
    /// The file could not be opened, or its length could not be read.
    OpenFailed,
    /// The last write was accepted.
    Written,
    /// The last write failed.
    WriteFailed,
    /// The last flush succeeded.
    Flushed,
    /// The last flush failed.
    FlushFailed,
    /// A record arrived on the input queue.
    Record(LatencyRecord),
    /// The input queue was closed.
    InputClosed,
}

/// What the driver is to do next.
#[derive(Debug, PartialEq, Eq)]
pub enum PersisterAction {
    /// Append this text through the buffer.
    Write(String),
    /// Flush the buffer to the file.
    Flush,
    /// Wait for the next record.
    Receive,
    /// Stop without error.
    Finish,
    /// Stop with the error of the operation that just failed.
    Abort,
}

/// The mathematical content of a [`PersisterAction`].
pub enum PersisterActionView {
    Write(Seq<char>),
    Flush,
    Receive,
    Finish,
    Abort,
}

impl View for PersisterAction {
    type V = PersisterActionView;

    open spec fn view(&self) -> PersisterActionView {
        match self {
            PersisterAction::Write(text) => PersisterActionView::Write(text@),
            PersisterAction::Flush => PersisterActionView::Flush,
            PersisterAction::Receive => PersisterActionView::Receive,
            PersisterAction::Finish => PersisterActionView::Finish,
            PersisterAction::Abort => PersisterActionView::Abort,
        }
    }
}

/// The transition relation of the persister: the next phase and the action,
/// or `None` where the event does not answer what the persister waits for.
pub open spec fn transition(phase: PersisterPhase, event: PersisterEvent) -> Option<
    (PersisterPhase, PersisterActionView),
> {
    match (phase, event) {
        (PersisterPhase::Opening, PersisterEvent::Opened { len }) => if len == 0 {
            Some((PersisterPhase::WritingHeader, PersisterActionView::Write(header_text())))
        } else {
            Some((PersisterPhase::Idle, PersisterActionView::Receive))
        },
        (PersisterPhase::Opening, PersisterEvent::OpenFailed) => Some(
            (PersisterPhase::Failed, PersisterActionView::Abort),
        ),
        (PersisterPhase::WritingHeader, PersisterEvent::Written) => Some(
            (PersisterPhase::FlushingHeader, PersisterActionView::Flush),
        ),
        (PersisterPhase::WritingHeader, PersisterEvent::WriteFailed) => Some(
            (PersisterPhase::Failed, PersisterActionView::Abort),
        ),
        (PersisterPhase::FlushingHeader, PersisterEvent::Flushed) => Some(
            (PersisterPhase::Idle, PersisterActionView::Receive),
        ),
        (PersisterPhase::FlushingHeader, PersisterEvent::FlushFailed) => Some(
            (PersisterPhase::Failed, PersisterActionView::Abort),
        ),
        (PersisterPhase::Idle, PersisterEvent::Record(record)) => Some(
            (PersisterPhase::Writing(record), PersisterActionView::Write(line_text(record))),
        ),
        (PersisterPhase::Idle, PersisterEvent::InputClosed) => Some(
            (PersisterPhase::Done, PersisterActionView::Finish),
        ),
        (PersisterPhase::Writing(record), PersisterEvent::Written) => if flush_due(record.slot) {
            Some((PersisterPhase::Flushing, PersisterActionView::Flush))
        } else {
            Some((PersisterPhase::Idle, PersisterActionView::Receive))
        },
        (PersisterPhase::Writing(_), PersisterEvent::WriteFailed) => Some(
            (PersisterPhase::Idle, PersisterActionView::Receive),
        ),
        (PersisterPhase::Flushing, PersisterEvent::Flushed) => Some(
            (PersisterPhase::Idle, PersisterActionView::Receive),
        ),
        (PersisterPhase::Flushing, PersisterEvent::FlushFailed) => Some(
            (PersisterPhase::Idle, PersisterActionView::Receive),
        ),
        _ => None,
    }
}

/// The header line.
pub fn header() -> (text: String)
    ensures
        text@ == header_text(),
{
    String::from_str("block,time\n")
}

/// The log line of a record.
pub fn record_line(record: &LatencyRecord) -> (text: String)
    ensures
        text@ == line_text(*record),
{
    proof {
        reveal_strlit(",");
        reveal_strlit("\n");
    }
    let mut text = String::new();
    push_decimal(&mut text, record.slot as u128);
    text.append(",");
    push_decimal(&mut text, record.time as u128);
    text.append("\n");
    assert(text@ =~= line_text(*record));
    text
}

/// The persister: the phase it is in.
#[derive(Debug, PartialEq, Eq)]
pub struct Persister {
    pub phase: PersisterPhase,
}

impl Persister {
    /// A persister that is about to open its log file. The first thing to do
    /// for it is to open the file for appending, creating it if it is absent,
    /// and to read its length.
    pub fn new() -> (persister: Persister)
        ensures
            persister.phase == PersisterPhase::Opening,
    {
        Persister { phase: PersisterPhase::Opening }
    }

    /// One step of the persister.
    ///
    /// Takes the event that the driver reports and returns the action to
    /// perform, moving to the next phase as [`transition`] defines both.
    /// Returns `None`, exactly where `transition` does, for an event that does
    /// not answer what the persister is waiting for; the persister then stays
    /// as it was.
    pub fn step(&mut self, event: PersisterEvent) -> (res: Option<PersisterAction>)
        ensures
            match transition(old(self).phase, event) {
                Some((next, action)) => final(self).phase == next && (res matches Some(got)
                    && got@ == action),
                None => res is None && final(self).phase == old(self).phase,
            },
    {
        let (next, action) = match (self.phase, event) {
            (PersisterPhase::Opening, PersisterEvent::Opened { len }) => {
                if len == 0 {
                    (PersisterPhase::WritingHeader, PersisterAction::Write(header()))
                } else {
                    (PersisterPhase::Idle, PersisterAction::Receive)
                }
            },
            (PersisterPhase::Opening, PersisterEvent::OpenFailed) => (
                PersisterPhase::Failed,
                PersisterAction::Abort,
            ),
            (PersisterPhase::WritingHeader, PersisterEvent::Written) => (
                PersisterPhase::FlushingHeader,
                PersisterAction::Flush,
            ),
            (PersisterPhase::WritingHeader, PersisterEvent::WriteFailed) => (
                PersisterPhase::Failed,
                PersisterAction::Abort,
            ),
            (PersisterPhase::FlushingHeader, PersisterEvent::Flushed) => (
                PersisterPhase::Idle,
                PersisterAction::Receive,
            ),
            (PersisterPhase::FlushingHeader, PersisterEvent::FlushFailed) => (
                PersisterPhase::Failed,
                PersisterAction::Abort,
            ),
            (PersisterPhase::Idle, PersisterEvent::Record(record)) => {
                let line = record_line(&record);
                (PersisterPhase::Writing(record), PersisterAction::Write(line))
            },
            (PersisterPhase::Idle, PersisterEvent::InputClosed) => (
                PersisterPhase::Done,
                PersisterAction::Finish,
            ),
            (PersisterPhase::Writing(record), PersisterEvent::Written) => {
                if record.slot % FLUSH_INTERVAL == 0 {
                    (PersisterPhase::Flushing, PersisterAction::Flush)
                } else {
                    (PersisterPhase::Idle, PersisterAction::Receive)
                }
            },
            (PersisterPhase::Writing(_), PersisterEvent::WriteFailed) => (
                PersisterPhase::Idle,
                PersisterAction::Receive,
            ),
            (PersisterPhase::Flushing, PersisterEvent::Flushed) => (
                PersisterPhase::Idle,
                PersisterAction::Receive,
            ),
            (PersisterPhase::Flushing, PersisterEvent::FlushFailed) => (
                PersisterPhase::Idle,
                PersisterAction::Receive,
            ),
            _ => {
                return None;
            },
        };
        self.phase = next;
        Some(action)
    }
}

} // verus!
