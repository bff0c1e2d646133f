//! The requests that the contract serves.

use crate::contract::{ExecuteCtx, execute};
use crate::error::ContractError;
use crate::host::encode_optional_string;
use crate::model::{
    Outcome,
    lemma_failure_is_final,
    pop_model,
    push_model,
    reset_model,
    result_view,
    run_model,
    run_prefix,
};
use crate::msg::Command;
use crate::results::{CosmosMsg, Event, Response, SubMsg, WasmMsg, pairs_view};
use crate::state::Buffer;
use crate::views::views;
use vstd::prelude::*;

verus! {

/// Puts `data` on top of the buffer.
pub fn push(ctx: &mut ExecuteCtx, data: String) -> (res: Result<Response, ContractError>)
    ensures
        final(ctx).contract_addr == old(ctx).contract_addr,
        (Outcome { buffer: final(ctx).buffer@, result: result_view(res) }) == push_model(
            data@,
            old(ctx).buffer@,
        ),
{
    ctx.buffer.push(data);
    Ok(Response::new())
}

/// Takes the top of the buffer off. The payload of the response is the JSON
/// encoding of what was taken: a string, or `null` where the buffer was
/// empty.
pub fn pop(ctx: &mut ExecuteCtx) -> (res: Result<Response, ContractError>)
    ensures
        final(ctx).contract_addr == old(ctx).contract_addr,
        (Outcome { buffer: final(ctx).buffer@, result: result_view(res) }) == pop_model(
            old(ctx).buffer@,
        ),
{
    let data = ctx.buffer.pop();
    match encode_optional_string(&data) {
        Ok(bytes) => Ok(Response::new().set_data(bytes)),
        Err(e) => Err(ContractError::from(e)),
    }
}

/// Runs the commands of `program` in order, each on the response that the
/// ones before it have accumulated. A nested request runs at once, on the
/// same buffer. The first command that fails ends the program: the
/// accumulated response is dropped, and what nested requests have done to
/// the buffer stays.
pub fn run(ctx: &mut ExecuteCtx, program: Vec<Command>) -> (res: Result<Response, ContractError>)
    ensures
        final(ctx).contract_addr == old(ctx).contract_addr,
        (Outcome { buffer: final(ctx).buffer@, result: result_view(res) }) == run_model(
            views(program@),
            old(ctx).buffer@,
            old(ctx).contract_addr@,
        ),
    decreases program,
{
    let mut res = Response::new();
    let ghost whole = program;
    let ghost start = ctx.buffer@;
    let ghost addr = ctx.contract_addr@;
    for cmd in it: program
        invariant
            it.seq() == whole@,
            whole == program,
            start == old(ctx).buffer@,
            ctx.contract_addr == old(ctx).contract_addr,
            addr == old(ctx).contract_addr@,
            run_prefix(views(whole@), it.index() as int, start, addr) == (Outcome {
                buffer: ctx.buffer@,
                result: Ok(res@),
            }),
    {
        let ghost k = it.index() as int;
        assert(0 <= k < whole@.len() && cmd == whole@[k]);
        assert(views(whole@)[k] == cmd@);
        match cmd {
            Command::Ev(ty, attrs) => {
                let event = Event::new(ty).add_attributes(attrs);
                assert(event@.attributes =~= pairs_view(attrs@));
                res = res.add_event(event);
            },
            Command::Attr(key, value) => {
                res = res.add_attribute(key, value);
            },
            Command::Data(data) => {
                res = res.set_data(data);
            },
            Command::Msg(msg) => {
                proof {
                    broadcast use vstd::std_specs::vec::group_vec_axioms;
                    assert(decreases_to!(whole => whole[k]));
                    assert(decreases_to!(cmd => cmd->Msg_0));
                }
                match execute(ctx, msg) {
                    Ok(nested) => {
                        res = res.merge(nested);
                    },
                    Err(e) => {
                        proof {
                            lemma_failure_is_final(
                                views(whole@),
                                k + 1,
                                whole@.len() as int,
                                start,
                                addr,
                            );
                        }
                        return Err(e);
                    },
                }
            },
            Command::BankMsg(msg) => {
                res = res.add_message(CosmosMsg::Bank(msg));
            },
            Command::Sub(id, msg, reply_on) => {
                let request = WasmMsg::Execute {
                    contract_addr: ctx.contract_addr.clone(),
                    msg,
                    funds: Vec::new(),
                };
                assert(views(request->funds@) =~= Seq::empty());
                res = res.add_submessage(
                    SubMsg { id, msg: CosmosMsg::Wasm(request), gas_limit: None, reply_on },
                );
            },
            Command::Throw(msg) => {
                proof {
                    lemma_failure_is_final(views(whole@), k + 1, whole@.len() as int, start, addr);
                }
                return Err(ContractError::Custom { msg });
            },
        }
    }
    Ok(res)
}

/// Empties the buffer.
pub fn reset(ctx: &mut ExecuteCtx) -> (res: Result<Response, ContractError>)
    ensures
        final(ctx).contract_addr == old(ctx).contract_addr,
        final(ctx).buffer@ == Seq::<Seq<char>>::empty(),
        (Outcome { buffer: final(ctx).buffer@, result: result_view(res) }) == reset_model(
            old(ctx).buffer@,
        ),
{
    ctx.buffer = Buffer::new();
    Ok(Response::new())
}

} // verus!
