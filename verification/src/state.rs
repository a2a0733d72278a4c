//! The persisted state: one register that holds the high score.

use vstd::prelude::*;

verus! {

/// The persisted layout of the application: a single register named
/// `high_score`. It is seeded when the application is created and from then
/// on only ever replaced by a larger value.
#[derive(Debug, Clone, Copy, PartialEq, Eq, Structural)]
pub struct ZigZagState {
    pub high_score: u64,
}

impl View for ZigZagState {
    type V = nat;

    /// The high score as a number.
    open spec fn view(&self) -> nat {
        self.high_score as nat
    }
}

/// The score as a plain value held in memory, as it is handed between the
/// host and the application.
#[derive(Debug, Clone, Copy, PartialEq, Eq, Structural)]
pub struct ScoreState {
    pub value: u64,
}

impl View for ScoreState {
    type V = nat;

    /// The high score as a number.
    open spec fn view(&self) -> nat {
        self.value as nat
    }
}

} // verus!
