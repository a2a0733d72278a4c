//! The mutator: the only code that writes the high score.

use vstd::prelude::*;
use crate::abi::Operation;
use crate::error::ContractError;
use crate::score::record;
use crate::state::{ScoreState, ZigZagState};

verus! {

/// The mutator over the persisted register. It owns the state that the host
/// loaded, applies one operation at a time to it, and hands it back for the
/// host to commit.
pub struct ZigZagContract {
    state: ZigZagState,
}

impl View for ZigZagContract {
    type V = nat;

    /// The high score that the contract holds.
    closed spec fn view(&self) -> nat {
        self.state@
    }
}

impl ZigZagContract {
    /// Takes over the state that the host loaded. This never fails.
    pub fn new(state: ZigZagState) -> (result: Result<Self, ContractError>)
        ensures
            result matches Ok(contract) && contract@ == state@,
    {
        Ok(ZigZagContract { state })
    }

    /// Takes over the state that the host loaded. This never fails.
    pub fn load(state: ZigZagState) -> (result: Result<Self, ContractError>)
        ensures
            result matches Ok(contract) && contract@ == state@,
    {
        Ok(ZigZagContract { state })
    }

    /// The state as it stands, for the host to commit.
    pub fn state(&self) -> (state: &ZigZagState)
        ensures
            state@ == self@,
    {
        &self.state
    }

    /// Applies one submitted operation. The high score becomes the larger of
    /// the current one and the submitted score; a score that does not beat
    /// the current one changes nothing and is no error. Every operation is
    /// accepted.
    pub fn execute_operation(&mut self, operation: Operation) -> (result: Result<(), ContractError>)
        ensures
            result is Ok,
            final(self)@ == record(old(self)@, operation.score()),
            old(self)@ <= final(self)@,
            operation.score() <= old(self)@ ==> *final(self) == *old(self),
    {
        match operation {
            Operation::SubmitScore { score } => {
                let current_score: u64 = self.state.high_score;
                if score > current_score {
                    self.state.high_score = score;
                }
            },
        }
        Ok(())
    }

    /// The mutating entry point. `decoded` is what decoding the submitted
    /// bytes gave: an operation is applied as `execute_operation` applies it,
    /// and a decoding failure is handed back as the rejection, with the state
    /// left as it was.
    pub fn submit_operation(&mut self, decoded: Result<Operation, bcs::Error>) -> (result: Result<
        (),
        ContractError,
    >)
        ensures
            match decoded {
                Ok(operation) => {
                    &&& result is Ok
                    &&& final(self)@ == record(old(self)@, operation.score())
                },
                Err(failure) => {
                    &&& result == Err::<(), ContractError>(ContractError::BcsError(failure))
                    &&& *final(self) == *old(self)
                },
            },
    {
        match decoded {
            Ok(operation) => self.execute_operation(operation),
            Err(failure) => Err(ContractError::from(failure)),
        }
    }

    /// Messages from other instances carry nothing: the state stays as it is.
    pub fn execute_message(&mut self, _message: ()) -> (result: Result<(), ContractError>)
        ensures
            result is Ok,
            *final(self) == *old(self),
    {
        Ok(())
    }

    /// Messages addressed to the whole class of instances carry nothing: the
    /// state stays as it is.
    pub fn execute_class_message(&mut self, _message: ()) -> (result: Result<(), ContractError>)
        ensures
            result is Ok,
            *final(self) == *old(self),
    {
        Ok(())
    }
}

/// The mutator over a score held in memory. It starts at zero, may be seeded
/// once the application is created, and then applies one operation at a time.
pub struct ZigzagScoreContract {
    state: ScoreState,
}

impl View for ZigzagScoreContract {
    type V = nat;

    /// The high score that the contract holds.
    closed spec fn view(&self) -> nat {
        self.state@
    }
}

impl ZigzagScoreContract {
    /// A contract whose high score is zero, as it is when no seed is given.
    pub fn load() -> (contract: Self)
        ensures
            contract@ == 0,
    {
        ZigzagScoreContract { state: ScoreState { value: 0 } }
    }

    /// Seeds the high score with the value given at creation.
    pub fn instantiate(&mut self, value: u64)
        ensures
            final(self)@ == value,
    {
        self.state.value = value;
    }

    /// The state as it stands, for the host to commit.
    pub fn state(&self) -> (state: &ScoreState)
        ensures
            state@ == self@,
    {
        &self.state
    }

    /// Applies one submitted operation. The high score becomes the larger of
    /// the current one and the submitted score; a score that does not beat
    /// the current one changes nothing.
    pub fn execute_operation(&mut self, operation: Operation)
        ensures
            final(self)@ == record(old(self)@, operation.score()),
            old(self)@ <= final(self)@,
            operation.score() <= old(self)@ ==> *final(self) == *old(self),
    {
        match operation {
            Operation::SubmitScore { score } => {
                if score > self.state.value {
                    self.state.value = score;
                }
            },
        }
    }

    /// Messages from other instances carry nothing: the state stays as it is.
    pub fn execute_message(&mut self, _message: ())
        ensures
            *final(self) == *old(self),
    {
    }
}

} // verus!
