//! Turns a balance into the transfer instructions that move it.

use vstd::prelude::*;

use crate::state::{copy_coins, Coin, Cw20CoinVerified, GenericBalance};

verus! {

#[verifier::external_type_specification]
#[verifier::external_body]
pub struct ExStdError(cosmwasm_std::StdError);

/// The JSON bytes of a token contract's transfer instruction.
pub uninterp spec fn transfer_json(recipient: Seq<char>, amount: u128) -> Seq<u8>;

/// Relies on cosmwasm_std::to_json_vec applied to cw20's
/// `Cw20ExecuteMsg::Transfer`: the encoding depends on the recipient and
/// the amount alone, and succeeds (the JSON serializer fails on no string
/// and no struct variant).
#[verifier::external_body]
fn encode_transfer(recipient: &String, amount: u128) -> (r: Result<Vec<u8>, cosmwasm_std::StdError>)
    ensures
        r is Ok,
        r matches Ok(b) ==> b@ == transfer_json(recipient@, amount),
{
    let msg = cw20::Cw20ExecuteMsg::Transfer {
        recipient: recipient.clone(),
        amount: cosmwasm_std::Uint128::new(amount),
    };
    cosmwasm_std::to_json_vec(&msg)
}

/// An instruction for the hosting environment to move value.
#[derive(Debug, Clone)]
pub enum Transfer {
    /// Send native coins to an account.
    Bank { to_address: String, amount: Vec<Coin> },
    /// Run `msg` on a token contract.
    Wasm { contract_addr: String, msg: Vec<u8> },
}

pub enum TransferView {
    Bank { to_address: Seq<char>, amount: Seq<Coin> },
    Wasm { contract_addr: Seq<char>, msg: Seq<u8> },
}

impl View for Transfer {
    type V = TransferView;

    open spec fn view(&self) -> TransferView {
        match self {
            Transfer::Bank { to_address, amount } => TransferView::Bank {
                to_address: to_address@,
                amount: amount@,
            },
            Transfer::Wasm { contract_addr, msg } => TransferView::Wasm {
                contract_addr: contract_addr@,
                msg: msg@,
            },
        }
    }
}

/// The views of a list of instructions.
pub open spec fn views(v: Seq<Transfer>) -> Seq<TransferView> {
    v.map_values(|t: Transfer| t@)
}

/// Token amounts as (token contract, amount) pairs.
pub open spec fn token_entries(tokens: Seq<Cw20CoinVerified>) -> Seq<(Seq<char>, u128)> {
    tokens.map_values(|c: Cw20CoinVerified| (c.address@, c.amount))
}

/// One instruction that sends all the coins to `to`, or none if there are
/// no coins.
pub open spec fn native_transfers(to: Seq<char>, coins: Seq<Coin>) -> Seq<TransferView> {
    if coins.len() == 0 {
        Seq::empty()
    } else {
        seq![TransferView::Bank { to_address: to, amount: coins }]
    }
}

/// One instruction per token, in order, each telling the token contract to
/// transfer the amount to `to`.
pub open spec fn token_transfers(to: Seq<char>, tokens: Seq<(Seq<char>, u128)>) -> Seq<TransferView> {
    Seq::new(
        tokens.len(),
        |j: int| TransferView::Wasm { contract_addr: tokens[j].0, msg: transfer_json(to, tokens[j].1) },
    )
}

/// The instructions that move balance `b` to `to`: the native coins first,
/// then each token.
pub open spec fn dispatch(to: Seq<char>, b: GenericBalance) -> Seq<TransferView> {
    native_transfers(to, b.native@) + token_transfers(to, token_entries(b.cw20@))
}

/// The instructions that move `balance` to `to`.
pub fn send_tokens(to: &String, balance: &GenericBalance) -> (r: Vec<Transfer>)
    ensures
        views(r@) == dispatch(to@, *balance),
{
    let mut msgs: Vec<Transfer> = Vec::new();
    if balance.native.len() > 0 {
        msgs.push(Transfer::Bank { to_address: to.clone(), amount: copy_coins(&balance.native) });
    }
    let ghost head = views(msgs@);
    assert(head == native_transfers(to@, balance.native@)) by {
        assert(views(msgs@) =~= native_transfers(to@, balance.native@));
    }
    let ghost entries = token_entries(balance.cw20@);
    let mut i: usize = 0;
    while i < balance.cw20.len()
        invariant
            i <= balance.cw20.len(),
            entries == token_entries(balance.cw20@),
            head == native_transfers(to@, balance.native@),
            views(msgs@) == head + token_transfers(to@, entries.subrange(0, i as int)),
        decreases balance.cw20.len() - i,
    {
        let c = &balance.cw20[i];
        let bytes = encode_transfer(to, c.amount).unwrap();
        let ghost prev = views(msgs@);
        let ghost step = TransferView::Wasm { contract_addr: c.address@, msg: bytes@ };
        msgs.push(Transfer::Wasm { contract_addr: c.address.clone(), msg: bytes });
        assert(views(msgs@) =~= prev.push(step));
        assert(entries[i as int] == (c.address@, c.amount));
        assert(token_transfers(to@, entries.subrange(0, i + 1)) =~= token_transfers(
            to@,
            entries.subrange(0, i as int),
        ).push(step));
        i = i + 1;
    }
    assert(entries.subrange(0, i as int) =~= entries);
    msgs
}

} // verus!
