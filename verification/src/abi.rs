//! What callers may submit to the application.

use vstd::prelude::*;

verus! {

/// A request that may change the persisted state.
#[derive(Debug, Clone, Copy, PartialEq, Eq, Structural)]
pub enum Operation {
    /// A candidate score. It becomes the high score if it beats the current one.
    SubmitScore { score: u64 },
}

impl Operation {
    /// The score that this operation submits.
    pub open spec fn score(self) -> nat {
        match self {
            Operation::SubmitScore { score } => score as nat,
        }
    }
}

/// Marker for the interface of the application that keeps its score in a
/// persisted register.
#[derive(Debug, Clone, Copy)]
pub struct ZigZagAbi;

/// Marker for the interface of the application that keeps its score in memory.
#[derive(Debug, Clone, Copy)]
pub struct ZigzagScoreAbi;

} // verus!
