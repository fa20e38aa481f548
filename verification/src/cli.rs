//! What the user asked for.

use vstd::prelude::*;

verus! {

/// The arguments of one run.
#[derive(Debug, Clone)]
pub struct Cli {
    /// The project to take a snapshot of, as the user wrote it.
    pub project_path: String,
    /// Write the document without asking for a prompt.
    pub batch_mode: bool,
}

} // verus!
