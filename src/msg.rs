//! The inputs of the escrow actions and queries.

use vstd::prelude::*;

use crate::state::Coin;

verus! {

/// Deployment needs no settings.
#[derive(Debug, Clone, Copy, PartialEq, Eq, Structural)]
pub struct InstantiateMsg {}

/// The caller of an action and the native coins sent along with it.
#[derive(Debug, Clone)]
pub struct MessageInfo {
    pub sender: String,
    pub funds: Vec<Coin>,
}

/// Tokens handed over with an action: who sent them, how many, and the
/// instruction that came with them.
#[derive(Debug, Clone)]
pub struct Cw20ReceiveMsg {
    pub sender: String,
    pub amount: u128,
    pub msg: Vec<u8>,
}

/// Opens escrow `id`; `amount` is what the owner wants in return.
#[derive(Debug, Clone)]
pub struct CreateMsg {
    pub id: u32,
    pub amount: u128,
    pub token: Option<Cw20ReceiveMsg>,
}

/// Completes escrow `id` with the value offered in return.
#[derive(Debug, Clone)]
pub struct ApproveMsg {
    pub id: u32,
    pub token: Option<Cw20ReceiveMsg>,
}

#[derive(Debug, Clone)]
pub enum ExecuteMsg {
    Create(CreateMsg),
    Cancel { id: u32 },
    Approve(ApproveMsg),
}

#[derive(Debug, Clone, Copy, PartialEq, Eq, Structural)]
pub enum QueryMsg {
    /// All escrow ids, as text, in ascending order.
    List {},
    /// The record of one escrow.
    Details { id: u32 },
}

#[derive(Debug, Clone)]
pub struct ListResponse {
    /// The ids of all registered escrows.
    pub escrows: Vec<String>,
}

/// The amount of tokens handed over, zero when there are none.
pub open spec fn payload_amount(token: Option<Cw20ReceiveMsg>) -> u128 {
    match token {
        Some(t) => t.amount,
        None => 0,
    }
}

/// The amount of tokens handed over, zero when there are none.
pub fn token_amount(token: &Option<Cw20ReceiveMsg>) -> (r: u128)
    ensures
        r == payload_amount(*token),
{
    match token {
        Some(t) => t.amount,
        None => 0,
    }
}

} // verus!
