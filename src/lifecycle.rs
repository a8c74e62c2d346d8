//! Laws of the escrow lifecycle, stated over the contracts of the actions.

use vstd::prelude::*;

use crate::contract::{
    approve_post, cancel_post, create_post, has_value, offered_amount,
    required_amount, Response,
};
use crate::error::ContractError;
use crate::keys::key_of;
use crate::msg::{payload_amount, ApproveMsg, CreateMsg, MessageInfo};
use crate::state::EscrowStore;

verus! {

/// Once an escrow has been created, a second create with the same id and a
/// deposit is refused as already in use, and the stored record is kept.
pub proof fn lemma_create_twice(
    before: EscrowStore,
    mid: EscrowStore,
    after: EscrowStore,
    contract: Seq<char>,
    info1: MessageInfo,
    msg1: CreateMsg,
    r1: Result<Response, ContractError>,
    info2: MessageInfo,
    msg2: CreateMsg,
    r2: Result<Response, ContractError>,
)
    requires
        before.wf(),
        create_post(before, mid, contract, info1, msg1, r1),
        r1 is Ok,
        create_post(mid, after, contract, info2, msg2, r2),
        msg2.id == msg1.id,
        has_value(info2.funds@) || payload_amount(msg2.token) != 0,
    ensures
        r2 == Err::<Response, ContractError>(ContractError::AlreadyInUse {}),
        after == mid,
        after.view()[key_of(msg1.id)] == mid.view()[key_of(msg1.id)],
{
    assert(mid.view().contains_key(key_of(msg1.id)));
}

/// A completed or cancelled escrow refuses every later cancel and approve,
/// and the ledger stays as it was.
pub proof fn lemma_terminal_is_final(
    before: EscrowStore,
    id: u32,
    cancel_info: MessageInfo,
    after_cancel: EscrowStore,
    cancel_result: Result<Response, ContractError>,
    approve_info: MessageInfo,
    approve_msg: ApproveMsg,
    after_approve: EscrowStore,
    approve_result: Result<Response, ContractError>,
)
    requires
        before.wf(),
        before.view().contains_key(key_of(id)),
        before.view()[key_of(id)].is_complete || before.view()[key_of(id)].is_cancelled,
        cancel_post(before, after_cancel, cancel_info, id, cancel_result),
        approve_msg.id == id,
        approve_post(before, after_approve, approve_info, approve_msg, approve_result),
    ensures
        cancel_result is Err,
        after_cancel == before,
        approve_result is Err,
        after_approve == before,
{
}

/// Only the owner may cancel: any other caller is refused as unauthorized.
pub proof fn lemma_cancel_owner_only(
    before: EscrowStore,
    after: EscrowStore,
    info: MessageInfo,
    id: u32,
    r: Result<Response, ContractError>,
)
    requires
        before.wf(),
        before.view().contains_key(key_of(id)),
        before.view()[key_of(id)].owner@ != info.sender@,
        cancel_post(before, after, info, id, r),
    ensures
        r == Err::<Response, ContractError>(ContractError::Unauthorized {}),
        after == before,
{
}

/// On an open escrow, an approve succeeds exactly when the offered amount
/// of the kind the escrow wants equals the required one; any other amount,
/// by any margin, is refused as invalid and leaves the ledger as it was.
pub proof fn lemma_approve_exact_amount(
    before: EscrowStore,
    after: EscrowStore,
    info: MessageInfo,
    msg: ApproveMsg,
    r: Result<Response, ContractError>,
)
    requires
        before.wf(),
        before.view().contains_key(key_of(msg.id)),
        !before.view()[key_of(msg.id)].is_complete,
        !before.view()[key_of(msg.id)].is_cancelled,
        approve_post(before, after, info, msg, r),
    ensures
        (r is Ok) <==> offered_amount(before.view()[key_of(msg.id)], info.funds@, msg.token)
            == required_amount(before.view()[key_of(msg.id)]),
        offered_amount(before.view()[key_of(msg.id)], info.funds@, msg.token) != required_amount(
            before.view()[key_of(msg.id)],
        ) ==> (r == Err::<Response, ContractError>(ContractError::InvalidAmount {}) && after == before),
{
}

} // verus!
