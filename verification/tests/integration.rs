use buffer_contract::contract::{execute, instantiate, query, ExecuteCtx};
use buffer_contract::msg::{Command, ExecuteMsg, GetBufferResponse, InstantiateMsg, QueryMsg};
use buffer_contract::results::Response;
use buffer_contract::state::Buffer;

const USER: &str = "USER";
const ADMIN: &str = "ADMIN";

fn proper_instantiate() -> ExecuteCtx {
    let mut ctx = ExecuteCtx { buffer: Buffer::new(), contract_addr: "contract0".to_string() };
    let msg = InstantiateMsg {};
    let _sender = ADMIN;
    let _label = "test";
    instantiate(&mut ctx, msg).unwrap();
    ctx
}

fn buffer_of(items: &[&str]) -> Buffer {
    let mut buffer = Buffer::new();
    for item in items {
        buffer.push(item.to_string());
    }
    buffer
}

#[test]
fn buffer() {
    let mut ctx = proper_instantiate();

    let msg = ExecuteMsg::Push { data: "test".to_string() };
    let _sender = USER;
    let res = execute(&mut ctx, msg).unwrap();
    println!("{:#?}", res);
    assert_eq!(res, Response::new());
    assert_eq!(ctx.buffer, buffer_of(&["test"]));
}

#[test]
fn test_run() {
    let mut ctx = proper_instantiate();

    // { push: { data: string }} -> adds 1 to end of buffer
    // { run: { program: Vec<Command> }} -> runs the commands listed in program
    let msg = ExecuteMsg::Run {
        program: vec![
            Command::Msg(ExecuteMsg::Run {
                program: vec![
                    Command::Msg(ExecuteMsg::Push { data: "A".to_string() }),
                    Command::Msg(ExecuteMsg::Push { data: "B".to_string() }),
                ],
            }),
            Command::Msg(ExecuteMsg::Push { data: "C".to_string() }),
        ],
    };

    let _sender = USER;
    let res = execute(&mut ctx, msg);
    let res = res.unwrap();
    println!("{:#?}", res.data);
    assert!(res.events.is_empty());
    assert!(res.attributes.is_empty());
    assert!(res.messages.is_empty());
    assert_eq!(res.data, None);

    let res: GetBufferResponse = query(&ctx.buffer, QueryMsg::GetBuffer {});
    println!("{:?}", res);
    assert_eq!(res.buffer, buffer_of(&["A", "B", "C"]));
}
