use cosmwasm_std::Uint128;
use cw20::Cw20ExecuteMsg;
use escrow::keys::id_key;
use escrow::{
    all_escrow_ids, execute, execute_approve, execute_cancel, execute_create, instantiate,
    query_details, query_list, send_tokens, ApproveMsg, Coin, ContractError, CreateMsg,
    Cw20CoinVerified, Cw20ReceiveMsg, EscrowStore, ExecuteMsg, GenericBalance, InstantiateMsg,
    MessageInfo, Transfer,
};

const BIG: u128 = 100000000000000000000;

fn contract_addr() -> String {
    String::from("cosmos2contract")
}

fn info(sender: &str, funds: &[(u128, &str)]) -> MessageInfo {
    MessageInfo {
        sender: sender.to_string(),
        funds: funds
            .iter()
            .map(|(a, d)| Coin { denom: d.to_string(), amount: *a })
            .collect(),
    }
}

fn payload(sender: &str, amount: u128) -> Option<Cw20ReceiveMsg> {
    Some(Cw20ReceiveMsg { sender: sender.to_string(), amount, msg: b"{}".to_vec() })
}

fn decode(msg: &[u8]) -> Cw20ExecuteMsg {
    cosmwasm_std::from_json(msg).unwrap()
}

fn create(store: &mut EscrowStore, sender: &str, funds: &[(u128, &str)], id: u32, amount: u128, token: Option<Cw20ReceiveMsg>) -> Result<escrow::Response, ContractError> {
    let msg = ExecuteMsg::Create(CreateMsg { id, amount, token });
    execute(store, &contract_addr(), info(sender, funds), msg)
}

#[test]
fn create_test() {
    let mut store = EscrowStore::new();
    let res = instantiate(InstantiateMsg {});
    assert_eq!(0, res.messages.len());

    let res = create(&mut store, "source", &[(100, "tokens")], 1, BIG, None).unwrap();
    assert_eq!(1, res.messages.len());
    assert_eq!(("action", "create"), (res.attributes[0].key.as_str(), res.attributes[0].value.as_str()));

    create(&mut store, "source", &[], 2, BIG, payload("source", 100)).unwrap();
}

#[test]
fn cancel_escrow() {
    let mut store = EscrowStore::new();
    instantiate(InstantiateMsg {});
    create(&mut store, "source", &[(100, "tokens")], 1, BIG, None).unwrap();
    execute(&mut store, &contract_addr(), info("source", &[]), ExecuteMsg::Cancel { id: 1 }).unwrap();
}

#[test]
fn approve_escrow() {
    let mut store = EscrowStore::new();
    instantiate(InstantiateMsg {});
    create(&mut store, "source", &[(100, "tokens")], 1, BIG, None).unwrap();
    let approve = ApproveMsg { id: 1, token: payload("receiver", BIG) };
    execute(&mut store, &contract_addr(), info("receiver", &[]), ExecuteMsg::Approve(approve)).unwrap();
}

#[test]
fn create_twice_is_already_in_use() {
    let mut store = EscrowStore::new();
    create(&mut store, "source", &[(100, "tokens")], 7, 5, None).unwrap();
    let err = create(&mut store, "other", &[(3, "x")], 7, 9, None).unwrap_err();
    assert_eq!(err, ContractError::AlreadyInUse {});
    let rec = query_details(&store, 7).unwrap();
    assert_eq!(rec.owner, "source");
    assert_eq!(rec.coin_amount, 100);
    assert_eq!(rec.token_amount, 5);
}

#[test]
fn create_without_deposit_is_empty_balance() {
    let mut store = EscrowStore::new();
    assert_eq!(create(&mut store, "source", &[], 1, 5, None).unwrap_err(), ContractError::EmptyBalance {});
    assert_eq!(create(&mut store, "source", &[(0, "a")], 1, 5, payload("source", 0)).unwrap_err(), ContractError::EmptyBalance {});
    assert!(all_escrow_ids(&store).is_empty());
}

#[test]
fn zero_coins_fall_back_to_tokens() {
    let mut store = EscrowStore::new();
    let res = create(&mut store, "cw20addr", &[(0, "a")], 4, 30, payload("user", 12)).unwrap();
    let rec = query_details(&store, 4).unwrap();
    assert!(!rec.is_coin_escrow);
    assert_eq!(rec.coin_amount, 30);
    assert_eq!(rec.token_amount, 12);
    assert!(rec.balance.native.is_empty());
    assert_eq!(rec.balance.cw20.len(), 1);
    assert_eq!(rec.balance.cw20[0].address, "cw20addr");
    assert_eq!(res.messages.len(), 1);
    match &res.messages[0] {
        Transfer::Wasm { contract_addr: c, msg } => {
            assert_eq!(c, "cw20addr");
            assert_eq!(decode(msg), Cw20ExecuteMsg::Transfer { recipient: contract_addr(), amount: Uint128::new(12) });
        }
        other => panic!("unexpected {:?}", other),
    }
}

#[test]
fn details_round_trip() {
    let mut store = EscrowStore::new();
    create(&mut store, "source", &[(100, "token")], 1, 100, None).unwrap();
    let rec = query_details(&store, 1).unwrap();
    assert_eq!(rec.id, 1);
    assert_eq!(rec.coin_amount, 100);
    assert_eq!(rec.token_amount, 100);
    assert!(rec.is_coin_escrow);
    assert!(!rec.is_complete);
    assert!(!rec.is_cancelled);
    assert_eq!(rec.balance.native.len(), 1);
    assert_eq!(rec.balance.native[0].denom, "token");
}

#[test]
fn details_of_unknown_id_is_not_found() {
    let store = EscrowStore::new();
    assert_eq!(query_details(&store, 3).unwrap_err(), ContractError::NotFound {});
}

#[test]
fn approve_swaps_native_for_tokens() {
    let mut store = EscrowStore::new();
    create(&mut store, "owner", &[(100, "uusd")], 1, BIG, None).unwrap();
    let res = execute_approve(&mut store, info("tokencontract", &[]), ApproveMsg { id: 1, token: payload("buyer", BIG) }).unwrap();
    assert_eq!(res.messages.len(), 2);
    match &res.messages[0] {
        Transfer::Bank { to_address, amount } => {
            assert_eq!(to_address, "tokencontract");
            assert_eq!(amount.len(), 1);
            assert_eq!(amount[0].denom, "uusd");
            assert_eq!(amount[0].amount, 100);
        }
        other => panic!("unexpected {:?}", other),
    }
    match &res.messages[1] {
        Transfer::Wasm { contract_addr: c, msg } => {
            assert_eq!(c, "tokencontract");
            assert_eq!(decode(msg), Cw20ExecuteMsg::Transfer { recipient: "owner".to_string(), amount: Uint128::new(BIG) });
        }
        other => panic!("unexpected {:?}", other),
    }
    assert_eq!(res.attributes[0].value, "approve");
    assert_eq!(res.attributes[1].value, "1");
    assert!(query_details(&store, 1).unwrap().is_complete);
}

#[test]
fn approve_token_escrow_with_coins() {
    let mut store = EscrowStore::new();
    create(&mut store, "tokencontract", &[], 2, 50, payload("owner", 9)).unwrap();
    let res = execute_approve(&mut store, info("buyer", &[(50, "uusd")]), ApproveMsg { id: 2, token: None }).unwrap();
    assert_eq!(res.messages.len(), 2);
    match &res.messages[0] {
        Transfer::Wasm { contract_addr: c, msg } => {
            assert_eq!(c, "tokencontract");
            assert_eq!(decode(msg), Cw20ExecuteMsg::Transfer { recipient: "buyer".to_string(), amount: Uint128::new(9) });
        }
        other => panic!("unexpected {:?}", other),
    }
    match &res.messages[1] {
        Transfer::Bank { to_address, amount } => {
            assert_eq!(to_address, "tokencontract");
            assert_eq!(amount[0].amount, 50);
        }
        other => panic!("unexpected {:?}", other),
    }
}

#[test]
fn approve_off_by_one_is_invalid_amount() {
    let mut store = EscrowStore::new();
    create(&mut store, "owner", &[(100, "uusd")], 1, 500, None).unwrap();
    for offer in [499u128, 501] {
        let err = execute_approve(&mut store, info("t", &[]), ApproveMsg { id: 1, token: payload("b", offer) }).unwrap_err();
        assert_eq!(err, ContractError::InvalidAmount {});
    }
    assert!(!query_details(&store, 1).unwrap().is_complete);
    create(&mut store, "t", &[], 2, 40, payload("o", 8)).unwrap();
    for offer in [39u128, 41] {
        let err = execute_approve(&mut store, info("b", &[(offer, "uusd")]), ApproveMsg { id: 2, token: None }).unwrap_err();
        assert_eq!(err, ContractError::InvalidAmount {});
    }
    execute_approve(&mut store, info("b", &[(40, "uusd")]), ApproveMsg { id: 2, token: None }).unwrap();
}

#[test]
fn cancel_by_stranger_is_unauthorized() {
    let mut store = EscrowStore::new();
    create(&mut store, "owner", &[(100, "uusd")], 1, 5, None).unwrap();
    let err = execute_cancel(&mut store, info("mallory", &[]), 1).unwrap_err();
    assert_eq!(err, ContractError::Unauthorized {});
    assert!(!query_details(&store, 1).unwrap().is_cancelled);
}

#[test]
fn cancel_refunds_owner() {
    let mut store = EscrowStore::new();
    create(&mut store, "owner", &[(100, "uusd")], 1, 5, None).unwrap();
    let res = execute_cancel(&mut store, info("owner", &[]), 1).unwrap();
    assert_eq!(res.messages.len(), 1);
    match &res.messages[0] {
        Transfer::Bank { to_address, amount } => {
            assert_eq!(to_address, "owner");
            assert_eq!(amount[0].amount, 100);
        }
        other => panic!("unexpected {:?}", other),
    }
    assert_eq!(res.attributes[0].value, "cancel");
    assert!(query_details(&store, 1).unwrap().is_cancelled);
}

#[test]
fn terminal_escrows_refuse_further_actions() {
    let mut store = EscrowStore::new();
    create(&mut store, "owner", &[(100, "uusd")], 1, 5, None).unwrap();
    execute_cancel(&mut store, info("owner", &[]), 1).unwrap();
    assert_eq!(execute_cancel(&mut store, info("owner", &[]), 1).unwrap_err(), ContractError::AlreadyCancel {});
    assert_eq!(
        execute_approve(&mut store, info("t", &[]), ApproveMsg { id: 1, token: payload("b", 5) }).unwrap_err(),
        ContractError::AlreadyCancel {}
    );
    create(&mut store, "owner", &[(100, "uusd")], 2, 5, None).unwrap();
    execute_approve(&mut store, info("t", &[]), ApproveMsg { id: 2, token: payload("b", 5) }).unwrap();
    assert_eq!(execute_cancel(&mut store, info("owner", &[]), 2).unwrap_err(), ContractError::AlreadyComplete {});
    assert_eq!(
        execute_approve(&mut store, info("t", &[]), ApproveMsg { id: 2, token: payload("b", 5) }).unwrap_err(),
        ContractError::AlreadyComplete {}
    );
    let rec = query_details(&store, 2).unwrap();
    assert!(rec.is_complete && !rec.is_cancelled);
}

#[test]
fn unknown_ids_are_not_found() {
    let mut store = EscrowStore::new();
    assert_eq!(execute_cancel(&mut store, info("o", &[]), 9).unwrap_err(), ContractError::NotFound {});
    assert_eq!(
        execute_approve(&mut store, info("o", &[]), ApproveMsg { id: 9, token: None }).unwrap_err(),
        ContractError::NotFound {}
    );
}

#[test]
fn list_is_ascending() {
    let mut store = EscrowStore::new();
    for id in [3u32, 1, 2] {
        create(&mut store, "o", &[(1, "u")], id, 1, None).unwrap();
    }
    assert_eq!(query_list(&store).escrows, vec!["1", "2", "3"]);
}

#[test]
fn list_orders_keys_as_text() {
    let mut store = EscrowStore::new();
    for id in [9u32, 10, 100, 2] {
        create(&mut store, "o", &[(1, "u")], id, 1, None).unwrap();
    }
    assert_eq!(all_escrow_ids(&store), vec!["10", "100", "2", "9"]);
}

#[test]
fn send_tokens_orders_native_first() {
    let balance = GenericBalance {
        native: vec![Coin { denom: "a".to_string(), amount: 1 }, Coin { denom: "b".to_string(), amount: 2 }],
        cw20: vec![
            Cw20CoinVerified { address: "t1".to_string(), amount: 3 },
            Cw20CoinVerified { address: "t2".to_string(), amount: 4 },
        ],
    };
    let msgs = send_tokens(&"dest".to_string(), &balance);
    assert_eq!(msgs.len(), 3);
    assert!(matches!(&msgs[0], Transfer::Bank { amount, .. } if amount.len() == 2));
    match &msgs[2] {
        Transfer::Wasm { contract_addr: c, msg } => {
            assert_eq!(c, "t2");
            assert_eq!(decode(msg), Cw20ExecuteMsg::Transfer { recipient: "dest".to_string(), amount: Uint128::new(4) });
        }
        other => panic!("unexpected {:?}", other),
    }
    let empty = GenericBalance { native: vec![], cw20: vec![] };
    assert!(send_tokens(&"dest".to_string(), &empty).is_empty());
}

#[test]
fn error_messages() {
    assert_eq!(ContractError::InvalidAmount {}.message(), "Invalid amount");
    assert_eq!(ContractError::AlreadyInUse {}.message(), "Escrow id already in use");
    assert_eq!(ContractError::NotFound {}.message(), "Escrow not found");
}

#[test]
fn coin_escrow_accepts_right_tokens_with_coins_attached() {
    let mut store = EscrowStore::new();
    create(&mut store, "owner", &[(100, "uusd")], 1, 500, None).unwrap();
    let err = execute_approve(&mut store, info("t", &[(500, "uusd")]), ApproveMsg { id: 1, token: None }).unwrap_err();
    assert_eq!(err, ContractError::InvalidAmount {});
    assert!(!query_details(&store, 1).unwrap().is_complete);
    let res = execute_approve(&mut store, info("t", &[(7, "uusd")]), ApproveMsg { id: 1, token: payload("b", 500) }).unwrap();
    assert_eq!(res.messages.len(), 2);
    match &res.messages[0] {
        Transfer::Bank { to_address, amount } => {
            assert_eq!(to_address, "t");
            assert_eq!(amount[0].amount, 100);
        }
        other => panic!("unexpected {:?}", other),
    }
    match &res.messages[1] {
        Transfer::Bank { to_address, amount } => {
            assert_eq!(to_address, "owner");
            assert_eq!(amount.len(), 1);
            assert_eq!(amount[0].amount, 7);
        }
        other => panic!("unexpected {:?}", other),
    }
    assert!(query_details(&store, 1).unwrap().is_complete);
}

#[test]
fn token_escrow_accepts_right_coins_with_tokens_attached() {
    let mut store = EscrowStore::new();
    create(&mut store, "tokencontract", &[], 2, 50, payload("owner", 9)).unwrap();
    let res = execute_approve(&mut store, info("other", &[(50, "uusd")]), ApproveMsg { id: 2, token: payload("b", 3) }).unwrap();
    assert_eq!(res.messages.len(), 2);
    match &res.messages[1] {
        Transfer::Bank { to_address, amount } => {
            assert_eq!(to_address, "tokencontract");
            assert_eq!(amount[0].amount, 50);
        }
        other => panic!("unexpected {:?}", other),
    }
    assert!(query_details(&store, 2).unwrap().is_complete);
}

#[test]
fn approve_forwards_tokens_when_no_coin_has_value() {
    let mut store = EscrowStore::new();
    create(&mut store, "owner", &[(100, "uusd")], 1, 500, None).unwrap();
    let res = execute_approve(&mut store, info("t", &[(0, "uusd")]), ApproveMsg { id: 1, token: payload("b", 500) }).unwrap();
    match &res.messages[1] {
        Transfer::Wasm { contract_addr: c, msg } => {
            assert_eq!(c, "t");
            assert_eq!(decode(msg), Cw20ExecuteMsg::Transfer { recipient: "owner".to_string(), amount: Uint128::new(500) });
        }
        other => panic!("unexpected {:?}", other),
    }
}

#[test]
fn key_text_is_decimal() {
    assert_eq!(id_key(0), "0");
    assert_eq!(id_key(7), "7");
    assert_eq!(id_key(1203), "1203");
    assert_eq!(id_key(u32::MAX), "4294967295");
}
