//! The reader: answers queries from a committed snapshot and writes nothing.

use vstd::prelude::*;
use crate::state::{ScoreState, ZigZagState};

verus! {

/// The reader over the persisted register. It holds the snapshot that the
/// host loaded for it and never changes it.
pub struct ZigZagService {
    state: ZigZagState,
}

impl View for ZigZagService {
    type V = nat;

    /// The high score of the snapshot that the service holds.
    closed spec fn view(&self) -> nat {
        self.state@
    }
}

impl ZigZagService {
    /// A service that answers from the committed snapshot `state`.
    pub fn load(state: ZigZagState) -> (service: Self)
        ensures
            service@ == state@,
    {
        ZigZagService { state }
    }

    /// Answers a query with the high score of the snapshot, as it stands. The
    /// service is borrowed shared, so the snapshot is the same after the call
    /// as before it, however often a query is answered.
    pub fn handle_query(&self, _query: ()) -> (response: u64)
        ensures
            response == self@,
    {
        self.state.high_score
    }
}

/// The reader over a score held in memory. It holds the snapshot that it was
/// made with and never changes it.
pub struct ZigzagScoreService {
    state: ScoreState,
}

impl View for ZigzagScoreService {
    type V = nat;

    /// The high score of the snapshot that the service holds.
    closed spec fn view(&self) -> nat {
        self.state@
    }
}

impl ZigzagScoreService {
    /// A service that answers from the committed snapshot `state`.
    pub fn new(state: ScoreState) -> (service: Self)
        ensures
            service@ == state@,
    {
        ZigzagScoreService { state }
    }

    /// Answers a query with the high score of the snapshot, as it stands. The
    /// service is borrowed shared, so the snapshot is the same after the call
    /// as before it, however often a query is answered.
    pub fn handle_query(&self, _query: ()) -> (response: u64)
        ensures
            response == self@,
    {
        self.state.value
    }
}

} // verus!
