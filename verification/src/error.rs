//! What can end a run before a document exists.

use vstd::prelude::*;
use vstd::string::*;

verus! {

/// A failure that ends the run. A single entry that cannot be read is no
/// failure: the scan records it and goes on.
#[derive(Debug, Clone, Copy, PartialEq, Eq, Structural)]
pub enum SnapshotError {
    /// The project root could not be resolved to an absolute path.
    PathResolution,
    /// The project root itself could not be read.
    Traversal,
    /// The moment of generation cannot be written as a calendar date.
    TimeOutOfRange,
}

impl SnapshotError {
    /// The text shown to the user for this failure.
    pub open spec fn text(self) -> Seq<char> {
        match self {
            SnapshotError::PathResolution => "project path could not be resolved"@,
            SnapshotError::Traversal => "project root could not be read"@,
            SnapshotError::TimeOutOfRange => "time of generation is out of range"@,
        }
    }

    /// The text shown to the user for this failure.
    pub fn message(&self) -> (text: String)
        ensures
            text@ == self.text(),
    {
        match self {
            SnapshotError::PathResolution => String::from_str(
                "project path could not be resolved",
            ),
            SnapshotError::Traversal => String::from_str("project root could not be read"),
            SnapshotError::TimeOutOfRange => String::from_str(
                "time of generation is out of range",
            ),
        }
    }
}

} // verus!
