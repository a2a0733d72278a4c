//! What can go wrong at the boundary between the host and the application.

use vstd::prelude::*;
use vstd::std_specs::convert::FromSpecImpl;

verus! {

/// `linera_views::ViewError`, the error of the host's storage views. Nothing
/// is claimed of its contents: a value of it is only carried.
#[verifier::external_type_specification]
#[verifier::external_body]
pub struct ExViewError(linera_views::ViewError);

/// `bcs::Error`, the error of the binary decoder. Nothing is claimed of its
/// contents: a value of it is only carried.
#[verifier::external_type_specification]
#[verifier::external_body]
pub struct ExBcsError(bcs::Error);

/// `serde_json::Error`, the error of the JSON decoder. Nothing is claimed of
/// its contents: a value of it is only carried.
#[verifier::external_type_specification]
#[verifier::external_body]
pub struct ExJsonError(serde_json::Error);

/// Why the host's request was rejected. The transition itself never fails:
/// each cause lies in reading the state or in decoding what was submitted.
#[derive(Debug)]
pub enum ContractError {
    /// The persisted state could not be read or written.
    ViewError(linera_views::ViewError),
    /// The submitted bytes are not a binary-encoded operation.
    BcsError(bcs::Error),
    /// The submitted text is not a JSON-encoded operation.
    JsonError(serde_json::Error),
}

impl ContractError {
    /// The message shown for this error.
    pub open spec fn message(self) -> Seq<char> {
        match self {
            ContractError::ViewError(_) => "View Error"@,
            ContractError::BcsError(_) => "Serialization Error"@,
            ContractError::JsonError(_) => "JSON Error"@,
        }
    }

    /// The message shown for this error: one fixed text per cause.
    pub fn to_string(&self) -> (text: String)
        ensures
            text@ == self.message(),
    {
        match self {
            ContractError::ViewError(_) => "View Error".to_owned(),
            ContractError::BcsError(_) => "Serialization Error".to_owned(),
            ContractError::JsonError(_) => "JSON Error".to_owned(),
        }
    }
}

impl From<linera_views::ViewError> for ContractError {
    fn from(source: linera_views::ViewError) -> (error: ContractError) {
        ContractError::ViewError(source)
    }
}

impl FromSpecImpl<linera_views::ViewError> for ContractError {
    open spec fn obeys_from_spec() -> bool {
        true
    }

    open spec fn from_spec(source: linera_views::ViewError) -> ContractError {
        ContractError::ViewError(source)
    }
}

impl From<bcs::Error> for ContractError {
    fn from(source: bcs::Error) -> (error: ContractError) {
        ContractError::BcsError(source)
    }
}

impl FromSpecImpl<bcs::Error> for ContractError {
    open spec fn obeys_from_spec() -> bool {
        true
    }

    open spec fn from_spec(source: bcs::Error) -> ContractError {
        ContractError::BcsError(source)
    }
}

impl From<serde_json::Error> for ContractError {
    fn from(source: serde_json::Error) -> (error: ContractError) {
        ContractError::JsonError(source)
    }
}

impl FromSpecImpl<serde_json::Error> for ContractError {
    open spec fn obeys_from_spec() -> bool {
        true
    }

    open spec fn from_spec(source: serde_json::Error) -> ContractError {
        ContractError::JsonError(source)
    }
}

} // verus!
