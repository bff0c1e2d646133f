//! The entry points of the contract: setting it up, serving a request,
//! taking a reply, answering a question.

use crate::error::{ContractError, ContractErrorView};
use crate::model::{Outcome, execute_model, result_view};
use crate::msg::{ExecuteMsg, GetBufferResponse, InstantiateMsg, QueryMsg, lemma_program_view};
use crate::results::{Reply, ReplyView, Response, ResponseView};
use crate::state::Buffer;
use vstd::prelude::*;

pub mod execute;
pub mod query;
pub mod reply;

verus! {

/// What a request runs on: the stored buffer, and the address of the
/// contract itself.
pub struct ExecuteCtx {
    pub buffer: Buffer,
    pub contract_addr: String,
}

/// What a reply is handled on: the address of the contract itself. The
/// buffer is out of reach of a reply.
pub struct ReplyCtx {
    pub contract_addr: String,
}

/// Sets the contract up: the buffer is empty afterwards, whatever it held,
/// and the response is empty.
pub fn instantiate(ctx: &mut ExecuteCtx, msg: InstantiateMsg) -> (res: Result<
    Response,
    ContractError,
>)
    ensures
        final(ctx).buffer@ == Seq::<Seq<char>>::empty(),
        final(ctx).contract_addr == old(ctx).contract_addr,
        result_view(res) == Ok::<ResponseView, ContractErrorView>(ResponseView::empty()),
{
    ctx.buffer = Buffer::new();
    Ok(Response::default())
}

/// Serves the request `msg` on the buffer of `ctx`: a push, a pop, a reset
/// or a program. Any other request fails and leaves the buffer as it is.
pub fn execute(ctx: &mut ExecuteCtx, msg: ExecuteMsg) -> (res: Result<Response, ContractError>)
    ensures
        final(ctx).contract_addr == old(ctx).contract_addr,
        (Outcome { buffer: final(ctx).buffer@, result: result_view(res) }) == execute_model(
            msg@,
            old(ctx).buffer@,
            old(ctx).contract_addr@,
        ),
    decreases msg,
{
    match msg {
        ExecuteMsg::Push { data } => execute::push(ctx, data),
        ExecuteMsg::Pop {  } => execute::pop(ctx),
        ExecuteMsg::Run { program } => {
            proof {
                assert(decreases_to!(msg => msg->program));
                lemma_program_view(program@, program@.len() as int);
                assert(program@.take(program@.len() as int) =~= program@);
            }
            execute::run(ctx, program)
        },
        ExecuteMsg::Reset {  } => execute::reset(ctx),
        _ => Err(ContractError::Custom { msg: "Unsupported message".to_owned() }),
    }
}

/// What the reply `msg` leads to: the two ids that the contract waits for
/// have a handler each, and a reply under any other id is a failure.
pub open spec fn reply_model(msg: ReplyView) -> Result<ResponseView, ContractErrorView> {
    if msg.id == 1 {
        reply::reply_id_model(msg)
    } else if msg.id == 2 {
        reply::reply_inv_model(msg)
    } else {
        Err(reply::unknown_reply_id())
    }
}

/// Takes the host's report on an outgoing request and hands it to the
/// handler that its id selects.
pub fn reply(ctx: &ReplyCtx, msg: Reply) -> (res: Result<Response, ContractError>)
    ensures
        result_view(res) == reply_model(msg@),
{
    if msg.id == 1 {
        reply::reply_id(ctx, msg)
    } else if msg.id == 2 {
        reply::reply_inv(ctx, msg)
    } else {
        Err(ContractError::Custom { msg: "Unknown reply id".to_owned() })
    }
}

/// Answers the question `msg` from the stored buffer.
pub fn query(storage: &Buffer, msg: QueryMsg) -> (answer: GetBufferResponse)
    ensures
        answer.buffer@ == storage@,
{
    match msg {
        QueryMsg::GetBuffer {  } => query::buffer(storage),
    }
}

} // verus!
