//! The command line, as parsed: which command to run and with what.

use std::path::PathBuf;
use vstd::prelude::*;

verus! {

/// `std::path::PathBuf`, the path of a file. Nothing inside it is visible
/// here; it is carried from the command line to whoever opens the file.
#[verifier::external_type_specification]
#[verifier::external_body]
pub struct ExPathBuf(PathBuf);

/// Which kind of source to subscribe to. At least one of the two is chosen;
/// where both are, `laser` decides.
#[derive(Clone, Copy, Debug, PartialEq, Eq)]
pub struct StreamKind {
    /// Use laserstream.
    pub laser: bool,
    /// Use yellowstone geyser.
    pub grpc: bool,
}

impl StreamKind {
    /// At least one kind of source is chosen.
    pub open spec fn wf(&self) -> bool {
        self.laser || self.grpc
    }

    /// Whether at least one kind of source is chosen.
    pub fn is_chosen(&self) -> (chosen: bool)
        ensures
            chosen == self.wf(),
    {
        self.laser || self.grpc
    }
}

/// The commands of the program.
#[derive(Debug)]
pub enum Command {
    /// Record the times at which blocks were received.
    Record {
        /// The source to fetch from.
        kind: StreamKind,
        /// The file to append to.
        path: PathBuf,
    },
}

/// The parsed command line.
#[derive(Debug)]
pub struct App {
    pub command: Command,
}

} // verus!
