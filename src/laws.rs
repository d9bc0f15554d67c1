use vstd::prelude::*;

use crate::contract::{
    approve_outcome, instantiate_outcome, refund_outcome, sends,
};
use crate::error::ContractError;
use crate::msg::{InstantiateMsg, Response};
use crate::state::{expired_at, BlockInfo, RefundCaller, State};

verus! {

/// An escrow that would already be expired at creation is never created:
/// creation fails with `Expired` and yields no record to store.
pub proof fn creation_refused_once_expired(
    block: BlockInfo,
    sender: String,
    msg: InstantiateMsg,
    r: Result<State, ContractError>,
)
    requires
        instantiate_outcome(block, sender, msg, r),
        expired_at(msg.end_height, msg.end_time, block),
    ensures
        r is Err,
        r->Err_0 == (ContractError::Expired { end_height: msg.end_height, end_time: msg.end_time }),
{
}

/// Anyone but the arbiter is refused approval; before expiry the refusal is
/// `Unauthorized` (after expiry it is `Expired`, which is checked first).
pub proof fn approval_requires_arbiter(
    state: State,
    block: BlockInfo,
    sender: Seq<char>,
    quantity: Option<Vec<cosmwasm_std::Coin>>,
    balance: Result<Vec<cosmwasm_std::Coin>, cosmwasm_std::StdError>,
    r: Result<Response, ContractError>,
)
    requires
        approve_outcome(state, block, sender, quantity, balance, r),
        sender != state.arbiter@,
    ensures
        r is Err,
        !state.expired(block) ==> r->Err_0 == (ContractError::Unauthorized {}),
{
}

/// After expiry approval fails with `Expired`, even for the arbiter.
pub proof fn approval_requires_pre_expiry(
    state: State,
    block: BlockInfo,
    sender: Seq<char>,
    quantity: Option<Vec<cosmwasm_std::Coin>>,
    balance: Result<Vec<cosmwasm_std::Coin>, cosmwasm_std::StdError>,
    r: Result<Response, ContractError>,
)
    requires
        approve_outcome(state, block, sender, quantity, balance, r),
        state.expired(block),
    ensures
        r is Err,
        r->Err_0 == (ContractError::Expired { end_height: state.end_height, end_time: state.end_time }),
{
}

/// Before expiry a refund always fails; for a caller that the policy admits
/// the refusal is `NotExpired` (anyone else is `Unauthorized`, which is
/// checked first).
pub proof fn refund_requires_expiry(
    state: State,
    policy: RefundCaller,
    block: BlockInfo,
    sender: Seq<char>,
    balance: Result<Vec<cosmwasm_std::Coin>, cosmwasm_std::StdError>,
    r: Result<Response, ContractError>,
)
    requires
        refund_outcome(state, policy, block, sender, balance, r),
        !state.expired(block),
    ensures
        r is Err,
        state.may_refund(policy, sender) ==> r->Err_0 == (ContractError::NotExpired {
            end_height: state.end_height,
            end_time: state.end_time,
        }),
{
}

/// An admitted approval sends exactly the quantity asked for, whatever the
/// balance is; without a quantity it sends exactly the whole balance.
pub proof fn approval_sends_exact_amount(
    state: State,
    block: BlockInfo,
    sender: Seq<char>,
    quantity: Option<Vec<cosmwasm_std::Coin>>,
    balance: Result<Vec<cosmwasm_std::Coin>, cosmwasm_std::StdError>,
    r: Result<Response, ContractError>,
)
    requires
        approve_outcome(state, block, sender, quantity, balance, r),
        !state.expired(block),
        sender == state.arbiter@,
    ensures
        quantity is Some ==> r is Ok && sends(r->Ok_0, state.recipient@, quantity->Some_0),
        quantity is None && balance is Ok ==> r is Ok && sends(
            r->Ok_0,
            state.recipient@,
            balance->Ok_0,
        ),
{
}

/// A successful refund sends the whole balance to the source, and so to
/// neither the recipient nor the arbiter unless the source is that party.
pub proof fn refund_drains_to_source(
    state: State,
    policy: RefundCaller,
    block: BlockInfo,
    sender: Seq<char>,
    balance: Result<Vec<cosmwasm_std::Coin>, cosmwasm_std::StdError>,
    r: Result<Response, ContractError>,
)
    requires
        refund_outcome(state, policy, block, sender, balance, r),
        r is Ok,
    ensures
        balance is Ok,
        sends(r->Ok_0, state.source@, balance->Ok_0),
        state.source@ != state.recipient@ ==> r->Ok_0.messages@[0].to_address@ != state.recipient@,
        state.source@ != state.arbiter@ ==> r->Ok_0.messages@[0].to_address@ != state.arbiter@,
{
}

} // verus!
