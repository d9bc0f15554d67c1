use vstd::prelude::*;
use vstd::string::StringExecFns;

use crate::error::ContractError;
use crate::msg::{ArbiterResponse, BankSend, ExecuteMsg, InstantiateMsg, QueryMsg, Response};
use crate::state::{expired_at, is_caller, BlockInfo, RefundCaller, State};

verus! {

/// The record that creating an escrow from `msg` by `sender` would store.
pub open spec fn record_of(sender: String, msg: InstantiateMsg) -> State {
    State {
        arbiter: msg.arbiter,
        recipient: msg.recipient,
        source: sender,
        end_height: msg.end_height,
        end_time: msg.end_time,
    }
}

/// The outcome of creating an escrow at `block`: refused if it would already
/// be expired, else the record to store.
pub open spec fn instantiate_outcome(
    block: BlockInfo,
    sender: String,
    msg: InstantiateMsg,
    r: Result<State, ContractError>,
) -> bool {
    if expired_at(msg.end_height, msg.end_time, block) {
        r == Err::<State, ContractError>(
            ContractError::Expired { end_height: msg.end_height, end_time: msg.end_time },
        )
    } else {
        r == Ok::<State, ContractError>(record_of(sender, msg))
    }
}

/// `r` holds exactly one transfer, of `amount` to `to`.
pub open spec fn sends(r: Response, to: Seq<char>, amount: Vec<cosmwasm_std::Coin>) -> bool {
    &&& r.messages@.len() == 1
    &&& r.messages@[0].to_address@ == to
    &&& r.messages@[0].amount == amount
}

/// `r` carries the single attribute that marks an approval.
pub open spec fn notes_approval(r: Response) -> bool {
    &&& r.attributes@.len() == 1
    &&& r.attributes@[0].key@ == "Approved"@
    &&& r.attributes@[0].value@ == "amount"@
}

/// What an approval releases: the quantity asked for, else the balance as
/// the host reported it.
pub open spec fn approved_amount(
    quantity: Option<Vec<cosmwasm_std::Coin>>,
    balance: Result<Vec<cosmwasm_std::Coin>, cosmwasm_std::StdError>,
) -> Result<Vec<cosmwasm_std::Coin>, cosmwasm_std::StdError> {
    match quantity {
        Some(q) => Ok(q),
        None => balance,
    }
}

/// The outcome of an approval by `sender` at `block`: refused once expired,
/// then refused to anyone but the arbiter, else one transfer of the approved
/// amount to the recipient.
pub open spec fn approve_outcome(
    state: State,
    block: BlockInfo,
    sender: Seq<char>,
    quantity: Option<Vec<cosmwasm_std::Coin>>,
    balance: Result<Vec<cosmwasm_std::Coin>, cosmwasm_std::StdError>,
    r: Result<Response, ContractError>,
) -> bool {
    if state.expired(block) {
        r == Err::<Response, ContractError>(
            ContractError::Expired { end_height: state.end_height, end_time: state.end_time },
        )
    } else if sender != state.arbiter@ {
        r == Err::<Response, ContractError>(ContractError::Unauthorized {})
    } else {
        match approved_amount(quantity, balance) {
            Ok(amount) => r matches Ok(resp) && sends(resp, state.recipient@, amount)
                && notes_approval(resp),
            Err(e) => r == Err::<Response, ContractError>(ContractError::Std(e)),
        }
    }
}

/// The outcome of a refund by `sender` at `block`: refused to a caller that
/// `policy` does not admit, then refused before expiry, else one transfer of
/// the whole balance to the source.
pub open spec fn refund_outcome(
    state: State,
    policy: RefundCaller,
    block: BlockInfo,
    sender: Seq<char>,
    balance: Result<Vec<cosmwasm_std::Coin>, cosmwasm_std::StdError>,
    r: Result<Response, ContractError>,
) -> bool {
    if !state.may_refund(policy, sender) {
        r == Err::<Response, ContractError>(ContractError::Unauthorized {})
    } else if !state.expired(block) {
        r == Err::<Response, ContractError>(
            ContractError::NotExpired { end_height: state.end_height, end_time: state.end_time },
        )
    } else {
        match balance {
            Ok(amount) => r matches Ok(resp) && sends(resp, state.source@, amount)
                && resp.attributes@.len() == 0,
            Err(e) => r == Err::<Response, ContractError>(ContractError::Std(e)),
        }
    }
}

/// Creates the escrow record at `block`, with `sender` as its source. The
/// addresses in `msg` are the ones the host has validated. Nothing may be
/// stored when this fails.
pub fn instantiate(block: &BlockInfo, sender: String, msg: InstantiateMsg) -> (r: Result<
    State,
    ContractError,
>)
    ensures
        instantiate_outcome(*block, sender, msg, r),
{
    let state = State {
        arbiter: msg.arbiter,
        recipient: msg.recipient,
        source: sender,
        end_height: msg.end_height,
        end_time: msg.end_time,
    };
    if state.is_expired(block) {
        return Err(ContractError::Expired { end_height: msg.end_height, end_time: msg.end_time });
    }
    Ok(state)
}

/// Releases funds to the recipient: `quantity` if given, else the whole
/// `balance` that the host reported for the escrow. Only the arbiter may
/// approve, and only before expiry; expiry is checked first.
pub fn try_approve(
    state: &State,
    block: &BlockInfo,
    sender: &String,
    quantity: Option<Vec<cosmwasm_std::Coin>>,
    balance: Result<Vec<cosmwasm_std::Coin>, cosmwasm_std::StdError>,
) -> (r: Result<Response, ContractError>)
    ensures
        approve_outcome(*state, *block, sender@, quantity, balance, r),
{
    if state.is_expired(block) {
        return Err(ContractError::Expired { end_height: state.end_height, end_time: state.end_time });
    }
    if !is_caller(&state.arbiter, sender) {
        return Err(ContractError::Unauthorized {});
    }
    let amount = match quantity {
        Some(q) => q,
        None => match balance {
            Ok(b) => b,
            Err(e) => return Err(ContractError::from(e)),
        },
    };
    let res = Response::new().add_message(
        BankSend { to_address: state.recipient.clone(), amount },
    ).add_attribute(String::from_str("Approved"), String::from_str("amount"));
    Ok(res)
}

/// Returns the whole `balance` that the host reported for the escrow to its
/// source. Only a caller that `policy` admits may refund, and only once the
/// escrow has expired; the caller is checked first.
pub fn try_refund(
    state: &State,
    policy: RefundCaller,
    block: &BlockInfo,
    sender: &String,
    balance: Result<Vec<cosmwasm_std::Coin>, cosmwasm_std::StdError>,
) -> (r: Result<Response, ContractError>)
    ensures
        refund_outcome(*state, policy, *block, sender@, balance, r),
{
    let admitted = match policy {
        RefundCaller::Anyone => true,
        RefundCaller::ArbiterOnly => is_caller(&state.arbiter, sender),
    };
    if !admitted {
        return Err(ContractError::Unauthorized {});
    }
    if !state.is_expired(block) {
        return Err(ContractError::NotExpired { end_height: state.end_height, end_time: state.end_time });
    }
    let amount = match balance {
        Ok(b) => b,
        Err(e) => return Err(ContractError::from(e)),
    };
    let res = Response::new().add_message(BankSend { to_address: state.source.clone(), amount });
    Ok(res)
}

/// Runs one action on the stored escrow `state`, called by `sender` at
/// `block`; `balance` is what the host reports the escrow to hold, and
/// `refund_caller` says who may refund.
pub fn execute(
    state: &State,
    refund_caller: RefundCaller,
    block: &BlockInfo,
    sender: &String,
    msg: ExecuteMsg,
    balance: Result<Vec<cosmwasm_std::Coin>, cosmwasm_std::StdError>,
) -> (r: Result<Response, ContractError>)
    ensures
        msg matches ExecuteMsg::Approve { quantity } ==> approve_outcome(
            *state,
            *block,
            sender@,
            quantity,
            balance,
            r,
        ),
        msg is Refund ==> refund_outcome(*state, refund_caller, *block, sender@, balance, r),
{
    match msg {
        ExecuteMsg::Approve { quantity } => try_approve(state, block, sender, quantity, balance),
        ExecuteMsg::Refund {} => try_refund(state, refund_caller, block, sender, balance),
    }
}

/// Answers a read-only query on the stored escrow `state`.
pub fn query(state: &State, msg: QueryMsg) -> (r: ArbiterResponse)
    ensures
        msg is Arbiter ==> r.arbiter@ == state.arbiter@,
{
    match msg {
        QueryMsg::Arbiter {} => query_arbiter(state),
    }
}

/// The arbiter of the stored escrow `state`.
pub fn query_arbiter(state: &State) -> (r: ArbiterResponse)
    ensures
        r.arbiter@ == state.arbiter@,
{
    ArbiterResponse { arbiter: state.arbiter.clone() }
}

} // verus!
