//! A three-party escrow: a depositor funds it, an arbiter may release the
//! funds to a recipient before it expires, and once it has expired the funds
//! go back to the depositor.
//!
//! The engine is host-agnostic: every operation takes the escrow record, the
//! current block and the caller as plain values and returns either a typed
//! error or the transfer instructions for the host to carry out.

pub mod contract;
pub mod error;
pub mod laws;
pub mod msg;
pub mod state;

pub use contract::{execute, instantiate, query, query_arbiter, try_approve, try_refund};
pub use error::ContractError;
pub use msg::{
    ArbiterResponse, Attribute, BankSend, ExecuteMsg, InstantiateMsg, QueryMsg, Response,
};
pub use state::{is_caller, BlockInfo, RefundCaller, State};
