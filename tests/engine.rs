use cosmwasm_std::{coin, coins, StdError};
use escrow::{
    instantiate, is_caller, try_approve, try_refund, Attribute, BankSend, BlockInfo,
    ContractError, InstantiateMsg, RefundCaller, Response, State,
};

fn record(end_height: Option<u64>, end_time: Option<u64>) -> State {
    State {
        arbiter: String::from("arbiter"),
        recipient: String::from("recipient"),
        source: String::from("source"),
        end_height,
        end_time,
    }
}

fn block(height: u64, time: u64) -> BlockInfo {
    BlockInfo { height, time }
}

#[test]
fn no_bound_never_expires() {
    let s = record(None, None);
    assert!(!s.is_expired(&block(0, 0)));
    assert!(!s.is_expired(&block(u64::MAX, u64::MAX)));
}

#[test]
fn height_bound_is_reached_at_equality() {
    let s = record(Some(1000), None);
    assert!(!s.is_expired(&block(999, u64::MAX)));
    assert!(s.is_expired(&block(1000, 0)));
    assert!(s.is_expired(&block(1001, 0)));
}

#[test]
fn time_bound_is_reached_at_equality() {
    let s = record(None, Some(5000));
    assert!(!s.is_expired(&block(u64::MAX, 4999)));
    assert!(s.is_expired(&block(0, 5000)));
}

#[test]
fn either_bound_expires() {
    let s = record(Some(1000), Some(5000));
    assert!(!s.is_expired(&block(999, 4999)));
    assert!(s.is_expired(&block(1000, 0)));
    assert!(s.is_expired(&block(0, 5000)));
}

#[test]
fn caller_is_compared_exactly() {
    assert!(is_caller(&String::from("arbiter"), &String::from("arbiter")));
    assert!(!is_caller(&String::from("arbiter"), &String::from("Arbiter")));
    assert!(!is_caller(&String::from("arbiter"), &String::from("arbiter ")));
}

#[test]
fn creation_expired_by_time() {
    let msg = InstantiateMsg {
        arbiter: String::from("arbiter"),
        recipient: String::from("recipient"),
        end_height: None,
        end_time: Some(100),
    };
    match instantiate(&block(1, 100), String::from("creator"), msg) {
        Err(ContractError::Expired { end_height: None, end_time: Some(100) }) => {}
        r => panic!("Unexpected result: {:?}", r),
    }
}

#[test]
fn non_arbiter_refused_approval_before_and_after_expiry() {
    let s = record(Some(1000), None);
    let other = String::from("recipient");
    match try_approve(&s, &block(10, 0), &other, None, Ok(coins(7, "earth"))) {
        Err(ContractError::Unauthorized {}) => {}
        r => panic!("Unexpected result: {:?}", r),
    }
    match try_approve(&s, &block(1000, 0), &other, None, Ok(coins(7, "earth"))) {
        Err(ContractError::Expired { end_height: Some(1000), end_time: None }) => {}
        r => panic!("Unexpected result: {:?}", r),
    }
}

#[test]
fn arbiter_refused_approval_after_expiry() {
    let s = record(Some(1000), Some(50));
    let arbiter = String::from("arbiter");
    match try_approve(&s, &block(3, 50), &arbiter, Some(coins(1, "earth")), Ok(vec![])) {
        Err(ContractError::Expired { end_height: Some(1000), end_time: Some(50) }) => {}
        r => panic!("Unexpected result: {:?}", r),
    }
}

#[test]
fn approval_sends_quantity_regardless_of_balance() {
    let s = record(Some(1000), None);
    let arbiter = String::from("arbiter");
    let failed = Err(StdError::generic_err("balance unavailable"));
    let res = try_approve(&s, &block(988, 0), &arbiter, Some(coins(500, "earth")), failed).unwrap();
    assert_eq!(
        res.messages,
        vec![BankSend { to_address: String::from("recipient"), amount: coins(500, "earth") }]
    );
    assert_eq!(
        res.attributes,
        vec![Attribute { key: String::from("Approved"), value: String::from("amount") }]
    );
}

#[test]
fn approval_without_quantity_sends_whole_balance() {
    let s = record(Some(1000), None);
    let arbiter = String::from("arbiter");
    let balance = vec![coin(1000, "earth"), coin(3, "moon")];
    let res = try_approve(&s, &block(900, 0), &arbiter, None, Ok(balance.clone())).unwrap();
    assert_eq!(
        res.messages,
        vec![BankSend { to_address: String::from("recipient"), amount: balance }]
    );
}

#[test]
fn approval_passes_on_balance_failure() {
    let s = record(Some(1000), None);
    let arbiter = String::from("arbiter");
    let failed = Err(StdError::generic_err("balance unavailable"));
    match try_approve(&s, &block(900, 0), &arbiter, None, failed) {
        Err(ContractError::Std(e)) => assert_eq!(e, StdError::generic_err("balance unavailable")),
        r => panic!("Unexpected result: {:?}", r),
    }
}

#[test]
fn refund_refused_to_non_arbiter_even_when_expired() {
    let s = record(Some(1000), None);
    let anyone = String::from("anyone");
    match try_refund(&s, RefundCaller::ArbiterOnly, &block(1001, 0), &anyone, Ok(coins(1000, "earth"))) {
        Err(ContractError::Unauthorized {}) => {}
        r => panic!("Unexpected result: {:?}", r),
    }
}

#[test]
fn open_refund_admits_any_caller_once_expired() {
    let s = record(Some(1000), None);
    let anyone = String::from("anyone");
    let res = try_refund(&s, RefundCaller::Anyone, &block(1000, 0), &anyone, Ok(coins(9, "earth")))
        .unwrap();
    assert_eq!(
        res.messages,
        vec![BankSend { to_address: String::from("source"), amount: coins(9, "earth") }]
    );
    match try_refund(&s, RefundCaller::Anyone, &block(999, 0), &anyone, Ok(coins(9, "earth"))) {
        Err(ContractError::NotExpired { end_height: Some(1000), end_time: None }) => {}
        r => panic!("Unexpected result: {:?}", r),
    }
}

#[test]
fn refund_refused_before_expiry() {
    let s = record(None, Some(500));
    let arbiter = String::from("arbiter");
    match try_refund(&s, RefundCaller::ArbiterOnly, &block(u64::MAX, 499), &arbiter, Ok(coins(1000, "earth"))) {
        Err(ContractError::NotExpired { end_height: None, end_time: Some(500) }) => {}
        r => panic!("Unexpected result: {:?}", r),
    }
}

#[test]
fn refund_with_no_bound_is_never_available() {
    let s = record(None, None);
    let arbiter = String::from("arbiter");
    match try_refund(&s, RefundCaller::ArbiterOnly, &block(u64::MAX, u64::MAX), &arbiter, Ok(coins(1, "earth"))) {
        Err(ContractError::NotExpired { end_height: None, end_time: None }) => {}
        r => panic!("Unexpected result: {:?}", r),
    }
}

#[test]
fn refund_sends_whole_balance_to_source() {
    let s = record(Some(1000), None);
    let arbiter = String::from("arbiter");
    let balance = vec![coin(1000, "earth"), coin(3, "moon")];
    let res = try_refund(&s, RefundCaller::ArbiterOnly, &block(1001, 0), &arbiter, Ok(balance.clone())).unwrap();
    assert_eq!(
        res.messages,
        vec![BankSend { to_address: String::from("source"), amount: balance }]
    );
    assert!(res.attributes.is_empty());
}

#[test]
fn refund_passes_on_balance_failure() {
    let s = record(Some(1000), None);
    let arbiter = String::from("arbiter");
    match try_refund(&s, RefundCaller::ArbiterOnly, &block(1000, 0), &arbiter, Err(StdError::generic_err("down"))) {
        Err(ContractError::Std(e)) => assert_eq!(e, StdError::generic_err("down")),
        r => panic!("Unexpected result: {:?}", r),
    }
}

#[test]
fn std_error_converts_into_contract_error() {
    match ContractError::from(StdError::not_found("state")) {
        ContractError::Std(e) => assert_eq!(e, StdError::not_found("state")),
        e => panic!("Unexpected error: {:?}", e),
    }
}

#[test]
fn response_builders_append_in_order() {
    let r = Response::new();
    assert!(r.messages.is_empty() && r.attributes.is_empty());
    let r = r
        .add_message(BankSend { to_address: String::from("a"), amount: coins(1, "x") })
        .add_message(BankSend { to_address: String::from("b"), amount: vec![] })
        .add_attribute(String::from("k"), String::from("v"));
    assert_eq!(r.messages.len(), 2);
    assert_eq!(r.messages[0].to_address, "a");
    assert_eq!(r.messages[1].to_address, "b");
    assert_eq!(r.attributes, vec![Attribute { key: String::from("k"), value: String::from("v") }]);
}
