use vstd::prelude::*;

verus! {

/// A failure reported by the host (storage, serialization, queries). It is
/// only carried through.
#[verifier::external_type_specification]
#[verifier::external_body]
pub struct ExStdError(cosmwasm_std::StdError);

/// Why an escrow operation failed. A failed call changes nothing and emits
/// no transfer.
#[derive(Debug)]
pub enum ContractError {
    /// A failure of a host collaborator, passed on unchanged.
    Std(cosmwasm_std::StdError),
    /// The caller is not the identity that the action requires.
    Unauthorized {},
    /// The action needs an escrow that has not expired.
    Expired { end_height: Option<u64>, end_time: Option<u64> },
    /// The action needs an escrow that has expired.
    NotExpired { end_height: Option<u64>, end_time: Option<u64> },
}

impl From<cosmwasm_std::StdError> for ContractError {
    fn from(e: cosmwasm_std::StdError) -> (r: ContractError) {
        ContractError::Std(e)
    }
}

impl vstd::std_specs::convert::FromSpecImpl<cosmwasm_std::StdError> for ContractError {
    open spec fn obeys_from_spec() -> bool {
        true
    }

    open spec fn from_spec(e: cosmwasm_std::StdError) -> ContractError {
        ContractError::Std(e)
    }
}

} // verus!
