use buffer_contract::contract::reply::{reply_id, reply_inv};
use buffer_contract::contract::{reply, ReplyCtx};
use buffer_contract::error::ContractError;
use buffer_contract::results::{Attribute, Event, Reply, Response, SubMsgResponse};
use cosmwasm_std::StdError;

fn ctx() -> ReplyCtx {
    ReplyCtx { contract_addr: "contract0".to_string() }
}

fn succeeded() -> SubMsgResponse {
    SubMsgResponse {
        events: vec![Event {
            ty: "wasm".to_string(),
            attributes: vec![Attribute { key: "k".to_string(), value: "v".to_string() }],
        }],
        data: Some(vec![1, 2, 3]),
    }
}

fn one_event(ty: &str, key: &str, value: &str) -> Response {
    Response {
        messages: vec![],
        attributes: vec![],
        events: vec![Event {
            ty: ty.to_string(),
            attributes: vec![Attribute { key: key.to_string(), value: value.to_string() }],
        }],
        data: None,
    }
}

#[test]
fn the_first_handler_succeeds_on_success() {
    let res = reply(&ctx(), Reply { id: 1, result: Ok(succeeded()) });
    assert_eq!(res, Ok(one_event("reply_id", "key1", "value1")));
}

#[test]
fn the_first_handler_fails_with_the_message_of_the_failure() {
    let res = reply(&ctx(), Reply { id: 1, result: Err("out of gas".to_string()) });
    assert_eq!(res, Err(ContractError::Custom { msg: "out of gas".to_string() }));
}

#[test]
fn the_second_handler_succeeds_on_failure() {
    let res = reply(&ctx(), Reply { id: 2, result: Err("out of gas".to_string()) });
    assert_eq!(res, Ok(one_event("reply_inv", "err", "out of gas")));
}

#[test]
fn the_second_handler_fails_on_success_and_carries_the_response() {
    let res = reply(&ctx(), Reply { id: 2, result: Ok(succeeded()) });
    assert_eq!(
        res,
        Err(ContractError::ReplyInv { data: Some(vec![1, 2, 3]), events: succeeded().events })
    );

    let bare = SubMsgResponse { events: vec![], data: None };
    let res = reply(&ctx(), Reply { id: 2, result: Ok(bare) });
    assert_eq!(res, Err(ContractError::ReplyInv { data: None, events: vec![] }));
}

#[test]
fn an_id_that_nobody_waits_for_fails_whatever_is_reported() {
    let unknown = || Err(ContractError::Custom { msg: "Unknown reply id".to_string() });
    for id in [0, 3, 4, 100, u64::MAX] {
        assert_eq!(reply(&ctx(), Reply { id, result: Ok(succeeded()) }), unknown());
        assert_eq!(reply(&ctx(), Reply { id, result: Err("failed".to_string()) }), unknown());
    }
}

#[test]
fn the_handlers_do_not_look_at_the_id() {
    let res = reply_id(&ctx(), Reply { id: 9, result: Ok(succeeded()) });
    assert_eq!(res, Ok(one_event("reply_id", "key1", "value1")));
    let res = reply_id(&ctx(), Reply { id: 9, result: Err("x".to_string()) });
    assert_eq!(res, Err(ContractError::Custom { msg: "x".to_string() }));
    let res = reply_inv(&ctx(), Reply { id: 9, result: Err("".to_string()) });
    assert_eq!(res, Ok(one_event("reply_inv", "err", "")));
    let res = reply_inv(&ctx(), Reply { id: 9, result: Ok(succeeded()) });
    assert_eq!(
        res,
        Err(ContractError::ReplyInv { data: Some(vec![1, 2, 3]), events: succeeded().events })
    );
}

#[test]
fn the_error_kinds_are_told_apart() {
    assert_ne!(ContractError::Unauthorized {}, ContractError::Custom { msg: String::new() });
    assert_eq!(
        ContractError::Std(StdError::generic_err("x")),
        ContractError::Std(StdError::generic_err("x"))
    );
    assert_ne!(
        ContractError::Std(StdError::generic_err("x")),
        ContractError::Custom { msg: "x".to_string() }
    );
    assert_eq!(
        ContractError::from(StdError::not_found("buffer")),
        ContractError::Std(StdError::not_found("buffer"))
    );
    assert_eq!(ContractError::Unauthorized {}, ContractError::Unauthorized {});
    assert_ne!(
        ContractError::ReplyInv { data: None, events: vec![] },
        ContractError::ReplyInv { data: Some(vec![]), events: vec![] }
    );
}
