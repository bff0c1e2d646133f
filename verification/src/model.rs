//! What the contract does, stated over plain sequences: the buffer before
//! and after, and the response or the failure that comes back.

use crate::error::{ContractError, ContractErrorView};
use crate::host::json_optional_string;
use crate::msg::{CommandView, ExecuteMsgView};
use crate::results::{
    CosmosMsgView,
    EventView,
    ReplyOn,
    Response,
    ResponseView,
    SubMsgView,
    WasmMsgView,
};
use vstd::prelude::*;

verus! {

/// How an invocation ends: the buffer it leaves behind, and what it hands
/// back.
pub struct Outcome {
    pub buffer: Seq<Seq<char>>,
    pub result: Result<ResponseView, ContractErrorView>,
}

/// The view of what an invocation hands back.
pub open spec fn result_view(result: Result<Response, ContractError>) -> Result<
    ResponseView,
    ContractErrorView,
> {
    match result {
        Ok(response) => Ok(response@),
        Err(error) => Err(error@),
    }
}

/// The failure with which a request ends that the contract does not serve.
pub open spec fn unsupported() -> ContractErrorView {
    ContractErrorView::Custom { msg: "Unsupported message"@ }
}

/// Pushing `data`: it lands on top of the buffer, and the response is empty.
pub open spec fn push_model(data: Seq<char>, buffer: Seq<Seq<char>>) -> Outcome {
    Outcome { buffer: buffer.push(data), result: Ok(ResponseView::empty()) }
}

/// The top of `buffer`, if it has one.
pub open spec fn top(buffer: Seq<Seq<char>>) -> Option<Seq<char>> {
    if buffer.len() > 0 {
        Some(buffer.last())
    } else {
        None
    }
}

/// Popping: the top leaves the buffer and is the payload of the response,
/// JSON encoded. An empty buffer stays empty, and the payload says `null`.
pub open spec fn pop_model(buffer: Seq<Seq<char>>) -> Outcome {
    Outcome {
        buffer: if buffer.len() > 0 {
            buffer.drop_last()
        } else {
            buffer
        },
        result: Ok(ResponseView::empty().set_data(json_optional_string(top(buffer)))),
    }
}

/// Resetting: the buffer is empty afterwards, and so is the response.
pub open spec fn reset_model(buffer: Seq<Seq<char>>) -> Outcome {
    Outcome { buffer: Seq::empty(), result: Ok(ResponseView::empty()) }
}

/// The request that a command registers under an id: `msg` addressed to the
/// contract at `addr`, without funds and without a gas limit.
pub open spec fn correlated(
    id: u64,
    msg: ExecuteMsgView,
    reply_on: ReplyOn,
    addr: Seq<char>,
) -> SubMsgView {
    SubMsgView {
        id,
        msg: CosmosMsgView::Wasm(
            WasmMsgView::Execute { contract_addr: addr, msg, funds: Seq::empty() },
        ),
        gas_limit: None,
        reply_on,
    }
}

/// What a command other than a nested request makes of the response `acc`
/// that the program has accumulated so far.
pub open spec fn accumulate(cmd: CommandView, acc: ResponseView, addr: Seq<char>) -> Result<
    ResponseView,
    ContractErrorView,
> {
    match cmd {
        CommandView::Ev(ty, attributes) => Ok(acc.add_event(EventView { ty, attributes })),
        CommandView::Attr(key, value) => Ok(acc.add_attribute(key, value)),
        CommandView::Msg(_) => Ok(acc),
        CommandView::BankMsg(msg) => Ok(acc.add_message(CosmosMsgView::Bank(msg))),
        CommandView::Sub(id, msg, reply_on) => Ok(
            acc.add_submessage(correlated(id, msg, reply_on, addr)),
        ),
        CommandView::Data(data) => Ok(acc.set_data(data)),
        CommandView::Throw(msg) => Err(ContractErrorView::Custom { msg }),
    }
}

/// What the request `msg` does to `buffer` on the contract at `addr`.
pub open spec fn execute_model(
    msg: ExecuteMsgView,
    buffer: Seq<Seq<char>>,
    addr: Seq<char>,
) -> Outcome
    decreases msg,
{
    match msg {
        ExecuteMsgView::Push { data } => push_model(data, buffer),
        ExecuteMsgView::Pop => pop_model(buffer),
        ExecuteMsgView::Run { program } => run_prefix(program, program.len() as int, buffer, addr),
        ExecuteMsgView::Reset => reset_model(buffer),
        _ => Outcome { buffer, result: Err(unsupported()) },
    }
}

/// Where the program stands after its first `k` commands: the buffer, and
/// the response accumulated so far or the failure that stopped it.
///
/// A command runs only while no earlier one has failed. A nested request
/// runs on the buffer as it stands; what it does to the buffer stays, also
/// where it fails or where the program stops later. Its response is merged
/// into the accumulated one.
pub open spec fn run_prefix(
    program: Seq<CommandView>,
    k: int,
    buffer: Seq<Seq<char>>,
    addr: Seq<char>,
) -> Outcome
    decreases program, k,
{
    if k <= 0 {
        Outcome { buffer, result: Ok(ResponseView::empty()) }
    } else if k > program.len() {
        run_prefix(program, k - 1, buffer, addr)
    } else {
        let before = run_prefix(program, k - 1, buffer, addr);
        match before.result {
            Err(_) => before,
            Ok(acc) => match program[k - 1] {
                CommandView::Msg(msg) => {
                    let nested = execute_model(msg, before.buffer, addr);
                    Outcome {
                        buffer: nested.buffer,
                        result: match nested.result {
                            Ok(response) => Ok(acc.merge(response)),
                            Err(error) => Err(error),
                        },
                    }
                },
                cmd => Outcome { buffer: before.buffer, result: accumulate(cmd, acc, addr) },
            },
        }
    }
}

/// What running the whole of `program` does to `buffer` on the contract at
/// `addr`.
pub open spec fn run_model(
    program: Seq<CommandView>,
    buffer: Seq<Seq<char>>,
    addr: Seq<char>,
) -> Outcome {
    run_prefix(program, program.len() as int, buffer, addr)
}

/// Once a command has failed, the rest of the program changes nothing.
pub proof fn lemma_failure_is_final(
    program: Seq<CommandView>,
    k: int,
    j: int,
    buffer: Seq<Seq<char>>,
    addr: Seq<char>,
)
    requires
        0 <= k <= j,
        run_prefix(program, k, buffer, addr).result is Err,
    ensures
        run_prefix(program, j, buffer, addr) == run_prefix(program, k, buffer, addr),
    decreases j - k,
{
    if k < j {
        lemma_failure_is_final(program, k, j - 1, buffer, addr);
    }
}

} // verus!
