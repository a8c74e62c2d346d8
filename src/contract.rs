//! The escrow actions — create, cancel, approve — and the queries over the
//! ledger.

use vstd::prelude::*;

use crate::dispatch::{
    dispatch, native_transfers, send_tokens, token_entries, token_transfers, views, Transfer,
    TransferView,
};
use crate::error::ContractError;
use crate::keys::{id_key, key_of, strictly_ascending};
use crate::msg::{
    payload_amount, token_amount, ApproveMsg, CreateMsg, Cw20ReceiveMsg, ExecuteMsg, InstantiateMsg, ListResponse,
    MessageInfo,
};
use crate::state::{with_status, Coin, Cw20CoinVerified, Escrow, EscrowStore, GenericBalance};

verus! {

/// A key and a value of the event that an action records.
#[derive(Debug, Clone)]
pub struct Attribute {
    pub key: String,
    pub value: String,
}

/// What an action hands back: the transfers to perform, in order, and the
/// event it records.
#[derive(Debug, Clone)]
pub struct Response {
    pub messages: Vec<Transfer>,
    pub attributes: Vec<Attribute>,
}

/// The response records the event `action` for escrow `id`.
pub open spec fn records_event(resp: Response, action: Seq<char>, id: u32) -> bool {
    &&& resp.attributes@.len() == 2
    &&& resp.attributes@[0].key@ == "action"@
    &&& resp.attributes@[0].value@ == action
    &&& resp.attributes@[1].key@ == "id"@
    &&& resp.attributes@[1].value@ == key_of(id)
}

fn event(action: &str, id_text: String) -> (r: Vec<Attribute>)
    ensures
        r@.len() == 2,
        r@[0].key@ == "action"@,
        r@[0].value@ == action@,
        r@[1].key@ == "id"@,
        r@[1].value@ == id_text@,
{
    let mut r: Vec<Attribute> = Vec::new();
    r.push(Attribute { key: String::from_str("action"), value: String::from_str(action) });
    r.push(Attribute { key: String::from_str("id"), value: id_text });
    r
}

/// Some coin has a non-zero amount.
pub open spec fn has_value(funds: Seq<Coin>) -> bool {
    exists|i: int| 0 <= i < funds.len() && (#[trigger] funds[i]).amount != 0
}

/// Whether some coin has a non-zero amount.
pub fn holds_value(funds: &Vec<Coin>) -> (r: bool)
    ensures
        r == has_value(funds@),
{
    let mut i: usize = 0;
    while i < funds.len()
        invariant
            i <= funds.len(),
            forall|j: int| 0 <= j < i ==> (#[trigger] funds@[j]).amount == 0,
        decreases funds.len() - i,
    {
        if funds[i].amount != 0 {
            return true;
        }
        i = i + 1;
    }
    false
}

/// The amount of the first coin, zero when there is none.
pub open spec fn first_amount(funds: Seq<Coin>) -> u128 {
    if funds.len() > 0 {
        funds[0].amount
    } else {
        0
    }
}

/// Deployment: nothing to set up, nothing to transfer.
pub fn instantiate(msg: InstantiateMsg) -> (r: Response)
    ensures
        r.messages@.len() == 0,
        r.attributes@.len() == 0,
{
    Response { messages: Vec::new(), attributes: Vec::new() }
}

// ---------------------------------------------------------------- deposits

/// The native coins that a deposit holds: the attached coins when one of
/// them has value, none otherwise.
pub open spec fn deposit_native(funds: Seq<Coin>) -> Seq<Coin> {
    if has_value(funds) {
        funds
    } else {
        Seq::empty()
    }
}

/// The tokens that a deposit holds, as (token contract, amount): the
/// handed-over tokens, attributed to the caller, when no attached coin has
/// value and the amount is positive; none otherwise.
pub open spec fn deposit_tokens(sender: Seq<char>, funds: Seq<Coin>, payload: u128) -> Seq<(Seq<char>, u128)> {
    if !has_value(funds) && payload > 0 {
        seq![(sender, payload)]
    } else {
        Seq::empty()
    }
}

/// The value a caller hands over with an action: native coins if any has
/// value, else the tokens.
pub fn deposit_balance(sender: String, funds: Vec<Coin>, payload: u128) -> (r: GenericBalance)
    ensures
        r.native@ == deposit_native(funds@),
        token_entries(r.cw20@) == deposit_tokens(sender@, funds@, payload),
{
    if holds_value(&funds) {
        let r = GenericBalance { native: funds, cw20: Vec::new() };
        assert(token_entries(r.cw20@) =~= Seq::empty());
        r
    } else if payload > 0 {
        let ghost s = sender@;
        let r = GenericBalance { native: Vec::new(), cw20: vec![Cw20CoinVerified { address: sender, amount: payload }] };
        assert(token_entries(r.cw20@) =~= seq![(s, payload)]);
        assert(r.native@ =~= Seq::empty());
        r
    } else {
        let r = GenericBalance { native: Vec::new(), cw20: Vec::new() };
        assert(token_entries(r.cw20@) =~= Seq::empty());
        assert(r.native@ =~= Seq::empty());
        r
    }
}

// ---------------------------------------------------------------- create

/// Why a create is refused, if it is: the checks run in this order.
pub open spec fn create_error(ledger: Map<Seq<char>, Escrow>, funds: Seq<Coin>, msg: CreateMsg) -> Option<ContractError> {
    if !has_value(funds) && payload_amount(msg.token) == 0 {
        Some(ContractError::EmptyBalance {})
    } else if ledger.contains_key(key_of(msg.id)) {
        Some(ContractError::AlreadyInUse {})
    } else {
        None
    }
}

/// `rec` is the record that a create by `sender` stores. Native coins with
/// value make a coin escrow that wants `msg.amount` tokens; otherwise the
/// handed-over tokens make a token escrow that wants `msg.amount` coins.
pub open spec fn created(rec: Escrow, sender: Seq<char>, funds: Seq<Coin>, msg: CreateMsg) -> bool {
    &&& rec.id == msg.id
    &&& rec.owner@ == sender
    &&& !rec.is_complete
    &&& !rec.is_cancelled
    &&& rec.balance.native@ == deposit_native(funds)
    &&& token_entries(rec.balance.cw20@) == deposit_tokens(sender, funds, payload_amount(msg.token))
    &&& if has_value(funds) {
        &&& rec.is_coin_escrow
        &&& rec.coin_amount == funds[0].amount
        &&& rec.token_amount == msg.amount
    } else {
        &&& !rec.is_coin_escrow
        &&& rec.coin_amount == msg.amount
        &&& rec.token_amount == payload_amount(msg.token)
    }
}

/// What a create does to the ledger, and what it returns.
pub open spec fn create_post(
    before: EscrowStore,
    after: EscrowStore,
    contract: Seq<char>,
    info: MessageInfo,
    msg: CreateMsg,
    r: Result<Response, ContractError>,
) -> bool {
    let err = create_error(before.view(), info.funds@, msg);
    let key = key_of(msg.id);
    &&& after.wf()
    &&& (r is Ok) <==> (err is None)
    &&& err matches Some(e) ==> r == Err::<Response, ContractError>(e)
    &&& r is Err ==> after == before
    &&& r matches Ok(resp) ==> {
        &&& after.view() == before.view().insert(key, after.view()[key])
        &&& created(after.view()[key], info.sender@, info.funds@, msg)
        &&& views(resp.messages@) == dispatch(contract, after.view()[key].balance)
        &&& records_event(resp, "create"@, msg.id)
    }
}

/// Opens escrow `msg.id` with what the caller deposits, and hands the
/// deposit into the custody of `contract_address`.
pub fn execute_create(
    store: &mut EscrowStore,
    contract_address: &String,
    info: MessageInfo,
    msg: CreateMsg,
) -> (r: Result<Response, ContractError>)
    requires
        old(store).wf(),
    ensures
        create_post(*old(store), *final(store), contract_address@, info, msg, r),
{
    let funds_value = holds_value(&info.funds);
    let amount = token_amount(&msg.token);
    if !funds_value && amount == 0 {
        return Err(ContractError::EmptyBalance {});
    }
    let key = id_key(msg.id);
    if store.find(&key).is_some() {
        return Err(ContractError::AlreadyInUse {});
    }
    let (coin_amount, token_amount) = if funds_value {
        (info.funds[0].amount, msg.amount)
    } else {
        (msg.amount, amount)
    };
    let owner = info.sender.clone();
    let balance = deposit_balance(info.sender, info.funds, amount);
    let rec = Escrow {
        id: msg.id,
        owner,
        coin_amount,
        token_amount,
        is_coin_escrow: funds_value,
        is_complete: false,
        is_cancelled: false,
        balance,
    };
    let messages = send_tokens(contract_address, &rec.balance);
    let id_text = key.clone();
    let ghost before = *store;
    store.insert_new(key, rec);
    assert(store.view() == before.view().insert(key_of(msg.id), rec));
    Ok(Response { messages, attributes: event("create", id_text) })
}

// ---------------------------------------------------------------- cancel

/// Why a cancel of escrow `id` by `caller` is refused, if it is: the checks
/// run in this order.
pub open spec fn cancel_error(ledger: Map<Seq<char>, Escrow>, caller: Seq<char>, id: u32) -> Option<ContractError> {
    let key = key_of(id);
    if !ledger.contains_key(key) {
        Some(ContractError::NotFound {})
    } else if ledger[key].owner@ != caller {
        Some(ContractError::Unauthorized {})
    } else if ledger[key].is_complete {
        Some(ContractError::AlreadyComplete {})
    } else if ledger[key].is_cancelled {
        Some(ContractError::AlreadyCancel {})
    } else {
        None
    }
}

/// What a cancel does to the ledger, and what it returns: the record is
/// marked cancelled and its deposit is sent back to the owner.
pub open spec fn cancel_post(
    before: EscrowStore,
    after: EscrowStore,
    info: MessageInfo,
    id: u32,
    r: Result<Response, ContractError>,
) -> bool {
    let err = cancel_error(before.view(), info.sender@, id);
    let key = key_of(id);
    let rec = before.view()[key];
    &&& after.wf()
    &&& (r is Ok) <==> (err is None)
    &&& err matches Some(e) ==> r == Err::<Response, ContractError>(e)
    &&& r is Err ==> after == before
    &&& r matches Ok(resp) ==> {
        &&& after.view() == before.view().insert(key, with_status(rec, false, true))
        &&& views(resp.messages@) == dispatch(rec.owner@, rec.balance)
        &&& records_event(resp, "cancel"@, id)
    }
}

/// The owner withdraws escrow `id`: it is marked cancelled and what it
/// holds goes back to the owner.
pub fn execute_cancel(store: &mut EscrowStore, info: MessageInfo, id: u32) -> (r: Result<Response, ContractError>)
    requires
        old(store).wf(),
    ensures
        cancel_post(*old(store), *final(store), info, id, r),
{
    let key = id_key(id);
    let i = match store.find(&key) {
        Some(i) => i,
        None => return Err(ContractError::NotFound {}),
    };
    let rec = store.get(i);
    if !(rec.owner == info.sender) {
        return Err(ContractError::Unauthorized {});
    }
    if rec.is_complete {
        return Err(ContractError::AlreadyComplete {});
    }
    if rec.is_cancelled {
        return Err(ContractError::AlreadyCancel {});
    }
    let messages = send_tokens(&rec.owner, &rec.balance);
    store.set_status(i, false, true);
    Ok(Response { messages, attributes: event("cancel", key) })
}

// ---------------------------------------------------------------- approve

/// The amount the approver offers of the kind the escrow wants: tokens for
/// a coin escrow, the first native coin for a token escrow.
pub open spec fn offered_amount(rec: Escrow, funds: Seq<Coin>, token: Option<Cw20ReceiveMsg>) -> u128 {
    if rec.is_coin_escrow {
        payload_amount(token)
    } else {
        first_amount(funds)
    }
}

/// The amount the owner asked for in return.
pub open spec fn required_amount(rec: Escrow) -> u128 {
    if rec.is_coin_escrow {
        rec.token_amount
    } else {
        rec.coin_amount
    }
}

/// Why an approve of escrow `id` is refused, if it is: the checks run in
/// this order. An offer of any other amount than the one asked for is an
/// invalid amount.
pub open spec fn approve_error(
    ledger: Map<Seq<char>, Escrow>,
    funds: Seq<Coin>,
    token: Option<Cw20ReceiveMsg>,
    id: u32,
) -> Option<ContractError> {
    let key = key_of(id);
    if !ledger.contains_key(key) {
        Some(ContractError::NotFound {})
    } else if ledger[key].is_complete {
        Some(ContractError::AlreadyComplete {})
    } else if ledger[key].is_cancelled {
        Some(ContractError::AlreadyCancel {})
    } else if offered_amount(ledger[key], funds, token) != required_amount(ledger[key]) {
        Some(ContractError::InvalidAmount {})
    } else {
        None
    }
}

/// The transfers that hand the approver's offer, built as a create builds
/// a deposit, to `owner`.
pub open spec fn offer_transfers(owner: Seq<char>, caller: Seq<char>, funds: Seq<Coin>, token: Option<Cw20ReceiveMsg>) -> Seq<TransferView> {
    native_transfers(owner, deposit_native(funds)) + token_transfers(
        owner,
        deposit_tokens(caller, funds, payload_amount(token)),
    )
}

/// What an approve does to the ledger, and what it returns: the record is
/// marked complete, the deposit goes to the approver, and the offer to the
/// owner.
pub open spec fn approve_post(
    before: EscrowStore,
    after: EscrowStore,
    info: MessageInfo,
    msg: ApproveMsg,
    r: Result<Response, ContractError>,
) -> bool {
    let err = approve_error(before.view(), info.funds@, msg.token, msg.id);
    let key = key_of(msg.id);
    let rec = before.view()[key];
    &&& after.wf()
    &&& (r is Ok) <==> (err is None)
    &&& err matches Some(e) ==> r == Err::<Response, ContractError>(e)
    &&& r is Err ==> after == before
    &&& r matches Ok(resp) ==> {
        &&& after.view() == before.view().insert(key, with_status(rec, true, false))
        &&& views(resp.messages@) == dispatch(info.sender@, rec.balance) + offer_transfers(
            rec.owner@,
            info.sender@,
            info.funds@,
            msg.token,
        )
        &&& records_event(resp, "approve"@, msg.id)
    }
}

/// The counterparty completes escrow `msg.id` by offering exactly the
/// amount the owner asked for; the two sides are swapped.
pub fn execute_approve(store: &mut EscrowStore, info: MessageInfo, msg: ApproveMsg) -> (r: Result<Response, ContractError>)
    requires
        old(store).wf(),
    ensures
        approve_post(*old(store), *final(store), info, msg, r),
{
    let key = id_key(msg.id);
    let i = match store.find(&key) {
        Some(i) => i,
        None => return Err(ContractError::NotFound {}),
    };
    let rec = store.get(i);
    if rec.is_complete {
        return Err(ContractError::AlreadyComplete {});
    }
    if rec.is_cancelled {
        return Err(ContractError::AlreadyCancel {});
    }
    let payload = token_amount(&msg.token);
    let first = if info.funds.len() > 0 {
        info.funds[0].amount
    } else {
        0
    };
    let matched = if rec.is_coin_escrow {
        payload == rec.token_amount
    } else {
        first == rec.coin_amount
    };
    if !matched {
        return Err(ContractError::InvalidAmount {});
    }
    let mut messages = send_tokens(&info.sender, &rec.balance);
    let offer = deposit_balance(info.sender, info.funds, payload);
    let mut sent = send_tokens(&rec.owner, &offer);
    let ghost first_part = messages@;
    let ghost second_part = sent@;
    messages.append(&mut sent);
    assert(views(messages@) =~= views(first_part) + views(second_part));
    store.set_status(i, true, false);
    Ok(Response { messages, attributes: event("approve", key) })
}

// ---------------------------------------------------------------- routing

/// Runs one action against the ledger.
pub fn execute(
    store: &mut EscrowStore,
    contract_address: &String,
    info: MessageInfo,
    msg: ExecuteMsg,
) -> (r: Result<Response, ContractError>)
    requires
        old(store).wf(),
    ensures
        match msg {
            ExecuteMsg::Create(m) => create_post(*old(store), *final(store), contract_address@, info, m, r),
            ExecuteMsg::Cancel { id } => cancel_post(*old(store), *final(store), info, id, r),
            ExecuteMsg::Approve(m) => approve_post(*old(store), *final(store), info, m, r),
        },
{
    match msg {
        ExecuteMsg::Create(m) => execute_create(store, contract_address, info, m),
        ExecuteMsg::Cancel { id } => execute_cancel(store, info, id),
        ExecuteMsg::Approve(m) => execute_approve(store, info, m),
    }
}

// ---------------------------------------------------------------- queries

/// `ids` are the keys of the ledger, each once, in ascending order.
pub open spec fn lists_keys(ledger: Map<Seq<char>, Escrow>, ids: Seq<String>) -> bool {
    let texts = ids.map_values(|s: String| s@);
    &&& strictly_ascending(texts)
    &&& forall|k: Seq<char>| ledger.contains_key(k) <==> texts.contains(k)
}

/// The record of escrow `id`.
pub fn query_details(store: &EscrowStore, id: u32) -> (r: Result<&Escrow, ContractError>)
    requires
        store.wf(),
    ensures
        (r is Ok) <==> store.view().contains_key(key_of(id)),
        r matches Ok(e) ==> *e == store.view()[key_of(id)],
        r matches Err(e) ==> e == (ContractError::NotFound {}),
{
    let key = id_key(id);
    match store.find(&key) {
        Some(i) => Ok(store.get(i)),
        None => Err(ContractError::NotFound {}),
    }
}

/// The ids of all escrows, as text, in ascending order.
pub fn query_list(store: &EscrowStore) -> (r: ListResponse)
    requires
        store.wf(),
    ensures
        lists_keys(store.view(), r.escrows@),
{
    ListResponse { escrows: all_escrow_ids(store) }
}

/// The ids of all registered escrows, as text, in ascending order.
pub fn all_escrow_ids(store: &EscrowStore) -> (r: Vec<String>)
    requires
        store.wf(),
    ensures
        lists_keys(store.view(), r@),
{
    store.keys_ascending()
}

} // verus!
