use buffer_contract::contract::{execute, instantiate, query, ExecuteCtx};
use buffer_contract::error::ContractError;
use buffer_contract::msg::{Command, ExecuteMsg, GetBufferResponse, InstantiateMsg, QueryMsg};
use buffer_contract::results::{Coin, Response};
use buffer_contract::state::Buffer;

fn coins(amount: u128, denom: &str) -> Vec<Coin> {
    vec![Coin { denom: denom.to_string(), amount }]
}

fn mock_ctx() -> ExecuteCtx {
    ExecuteCtx { buffer: Buffer::new(), contract_addr: "cosmos2contract".to_string() }
}

fn buffer_of(items: &[&str]) -> Buffer {
    let mut buffer = Buffer::new();
    for item in items {
        buffer.push(item.to_string());
    }
    buffer
}

#[test]
fn proper_initialization() {
    let mut ctx = mock_ctx();

    let msg = InstantiateMsg {};
    let _info = ("creator", coins(1000, "earth"));

    // we can just call .unwrap() to assert this was a success
    let res = instantiate(&mut ctx, msg).unwrap();
    assert_eq!(0, res.messages.len());

    // it worked, let's query the state
    let value: GetBufferResponse = query(&ctx.buffer, QueryMsg::GetBuffer {});
    assert_eq!(value.buffer, Buffer::new());
}

#[test]
fn push() {
    let mut ctx = mock_ctx();

    let msg = InstantiateMsg {};
    let _info = ("creator", coins(2, "token"));
    let _res = instantiate(&mut ctx, msg).unwrap();

    let _info = ("anyone", coins(2, "token"));
    let msg = ExecuteMsg::Push { data: "test".to_string() };
    let _res = execute(&mut ctx, msg).unwrap();

    let value: GetBufferResponse = query(&ctx.buffer, QueryMsg::GetBuffer {});
    assert_eq!(value.buffer, buffer_of(&["test"]));
}

#[test]
fn instantiate_empties_a_buffer_that_held_something() {
    let mut ctx = mock_ctx();
    ctx.buffer = buffer_of(&["left", "over"]);
    let res = instantiate(&mut ctx, InstantiateMsg {}).unwrap();
    assert_eq!(res, Response::new());
    assert_eq!(ctx.buffer, Buffer::new());
    assert_eq!(ctx.contract_addr, "cosmos2contract");
}

#[test]
fn push_responds_with_nothing() {
    let mut ctx = mock_ctx();
    let res = execute(&mut ctx, ExecuteMsg::Push { data: "a".to_string() }).unwrap();
    assert_eq!(res, Response::new());
    assert_eq!(ctx.buffer, buffer_of(&["a"]));
}

#[test]
fn pop_hands_back_the_top_as_json() {
    let mut ctx = mock_ctx();
    ctx.buffer = buffer_of(&["a", "b"]);
    let res = execute(&mut ctx, ExecuteMsg::Pop {}).unwrap();
    assert_eq!(res.data, Some(b"\"b\"".to_vec()));
    assert!(res.events.is_empty());
    assert!(res.attributes.is_empty());
    assert!(res.messages.is_empty());
    assert_eq!(ctx.buffer, buffer_of(&["a"]));
}

#[test]
fn pop_escapes_what_json_escapes() {
    let mut ctx = mock_ctx();
    ctx.buffer = buffer_of(&["say \"hi\"\n\\"]);
    let res = execute(&mut ctx, ExecuteMsg::Pop {}).unwrap();
    assert_eq!(res.data, Some(b"\"say \\\"hi\\\"\\n\\\\\"".to_vec()));
    assert_eq!(ctx.buffer, Buffer::new());
}

#[test]
fn pop_on_an_empty_buffer_says_null() {
    let mut ctx = mock_ctx();
    let res = execute(&mut ctx, ExecuteMsg::Pop {}).unwrap();
    assert_eq!(res.data, Some(b"null".to_vec()));
    assert_eq!(ctx.buffer, Buffer::new());
}

#[test]
fn push_then_pop_through_the_contract() {
    let mut ctx = mock_ctx();
    execute(&mut ctx, ExecuteMsg::Push { data: "x".to_string() }).unwrap();
    let res = execute(&mut ctx, ExecuteMsg::Pop {}).unwrap();
    assert_eq!(res.data, Some(b"\"x\"".to_vec()));
    assert_eq!(ctx.buffer, Buffer::new());
}

#[test]
fn reset_empties_the_buffer() {
    let mut ctx = mock_ctx();
    ctx.buffer = buffer_of(&["a", "b", "c"]);
    let res = execute(&mut ctx, ExecuteMsg::Reset {}).unwrap();
    assert_eq!(res, Response::new());
    assert_eq!(ctx.buffer, Buffer::new());

    let res = execute(&mut ctx, ExecuteMsg::Reset {}).unwrap();
    assert_eq!(res, Response::new());
    assert_eq!(ctx.buffer, Buffer::new());
}

#[test]
fn requests_that_are_not_served_fail_and_change_nothing() {
    let unsupported = || ContractError::Custom { msg: "Unsupported message".to_string() };

    let mut ctx = mock_ctx();
    ctx.buffer = buffer_of(&["kept"]);
    assert_eq!(execute(&mut ctx, ExecuteMsg::Query {}), Err(unsupported()));
    assert_eq!(execute(&mut ctx, ExecuteMsg::Debug { msg: "hello".to_string() }), Err(unsupported()));
    let msg = ExecuteMsg::Instantiate {
        code_id: 7,
        admin: None,
        msg: b"{}".to_vec(),
        funds: coins(1, "denom"),
        label: "child".to_string(),
    };
    assert_eq!(execute(&mut ctx, msg), Err(unsupported()));
    assert_eq!(ctx.buffer, buffer_of(&["kept"]));
}

#[test]
fn a_nested_request_that_is_not_served_stops_the_program() {
    let mut ctx = mock_ctx();
    let program = vec![
        Command::Msg(ExecuteMsg::Push { data: "A".to_string() }),
        Command::Msg(ExecuteMsg::Query {}),
        Command::Msg(ExecuteMsg::Push { data: "B".to_string() }),
    ];
    let res = execute(&mut ctx, ExecuteMsg::Run { program });
    assert_eq!(res, Err(ContractError::Custom { msg: "Unsupported message".to_string() }));
    assert_eq!(ctx.buffer, buffer_of(&["A"]));
}

#[test]
fn query_copies_the_buffer() {
    let stored = buffer_of(&["a", "b"]);
    let answer = query(&stored, QueryMsg::GetBuffer {});
    assert_eq!(answer, GetBufferResponse { buffer: buffer_of(&["a", "b"]) });
    assert_eq!(stored, buffer_of(&["a", "b"]));
    let direct = buffer_contract::contract::query::buffer(&stored);
    assert_eq!(direct.buffer, stored);
}

#[test]
fn pops_through_the_contract_come_last_in_first_out() {
    let mut ctx = mock_ctx();
    for item in ["one", "two", "three"] {
        execute(&mut ctx, ExecuteMsg::Push { data: item.to_string() }).unwrap();
    }
    let mut payloads = Vec::new();
    for _ in 0..4 {
        payloads.push(execute(&mut ctx, ExecuteMsg::Pop {}).unwrap().data.unwrap());
    }
    assert_eq!(
        payloads,
        vec![b"\"three\"".to_vec(), b"\"two\"".to_vec(), b"\"one\"".to_vec(), b"null".to_vec()]
    );
    assert_eq!(ctx.buffer, Buffer::new());
}

#[test]
fn pop_encodes_text_beyond_ascii_as_it_is() {
    let mut ctx = mock_ctx();
    ctx.buffer = buffer_of(&["gr\u{fc}\u{df}e \u{1f980}"]);
    let res = execute(&mut ctx, ExecuteMsg::Pop {}).unwrap();
    assert_eq!(res.data, Some("\"gr\u{fc}\u{df}e \u{1f980}\"".as_bytes().to_vec()));
}
