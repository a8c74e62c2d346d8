//! A two-party escrow: one side deposits native coins or tokens and names
//! the amount it wants in return; the other side completes the swap by
//! offering exactly that amount, or the owner cancels.

pub mod error;
pub mod keys;
pub mod state;
pub mod msg;
pub mod dispatch;
pub mod contract;
pub mod lifecycle;

pub use contract::{
    all_escrow_ids, execute, execute_approve, execute_cancel, execute_create, instantiate,
    query_details, query_list, Attribute, Response,
};
pub use dispatch::{send_tokens, Transfer};
pub use error::ContractError;
pub use msg::{ApproveMsg, CreateMsg, Cw20ReceiveMsg, ExecuteMsg, InstantiateMsg, ListResponse, MessageInfo, QueryMsg};
pub use state::{Coin, Cw20CoinVerified, Escrow, EscrowStore, GenericBalance};
