//! What holds of the contract whatever it is given: how pushes and pops pair
//! up, what a program accumulates, what a failure leaves behind, and how
//! programs compose.

use crate::contract::reply::{reply_id_model, reply_inv_model, unknown_reply_id};
use crate::contract::reply_model;
use crate::error::ContractErrorView;
use crate::host::{json_null, json_string};
use crate::model::{
    Outcome,
    accumulate,
    execute_model,
    lemma_failure_is_final,
    pop_model,
    push_model,
    reset_model,
    run_model,
    run_prefix,
    top,
};
use crate::msg::{CommandView, ExecuteMsgView};
use crate::results::{AttributeView, EventView, ReplyView, ResponseView};
use vstd::prelude::*;

verus! {

/// A pop right after a push hands back what was pushed, and leaves the
/// buffer as it was before the push.
pub proof fn lemma_push_then_pop(buffer: Seq<Seq<char>>, data: Seq<char>)
    ensures
        top(push_model(data, buffer).buffer) == Some(data),
        pop_model(push_model(data, buffer).buffer) == (Outcome {
            buffer,
            result: Ok(ResponseView::empty().set_data(json_string(data))),
        }),
{
    assert(buffer.push(data).drop_last() =~= buffer);
}

/// A pop on an empty buffer is no failure: the buffer stays empty, and the
/// payload of the response says `null`.
pub proof fn lemma_pop_on_empty()
    ensures
        pop_model(Seq::empty()) == (Outcome {
            buffer: Seq::empty(),
            result: Ok(ResponseView::empty().set_data(json_null())),
        }),
{
}

/// The buffer after each of `items` has been pushed, first to last.
pub open spec fn push_all(buffer: Seq<Seq<char>>, items: Seq<Seq<char>>) -> Seq<Seq<char>>
    decreases items.len(),
{
    if items.len() == 0 {
        buffer
    } else {
        push_all(push_model(items.first(), buffer).buffer, items.drop_first())
    }
}

/// What `n` pops in a row hand back, first to last.
pub open spec fn popped(buffer: Seq<Seq<char>>, n: nat) -> Seq<Option<Seq<char>>>
    decreases n,
{
    if n == 0 {
        Seq::empty()
    } else {
        seq![top(buffer)] + popped(pop_model(buffer).buffer, (n - 1) as nat)
    }
}

/// The buffer after `n` pops in a row.
pub open spec fn pop_all(buffer: Seq<Seq<char>>, n: nat) -> Seq<Seq<char>>
    decreases n,
{
    if n == 0 {
        buffer
    } else {
        pop_all(pop_model(buffer).buffer, (n - 1) as nat)
    }
}

/// Pushing one item after another appends them in that order.
pub proof fn lemma_push_all_appends(buffer: Seq<Seq<char>>, items: Seq<Seq<char>>)
    ensures
        push_all(buffer, items) == buffer + items,
    decreases items.len(),
{
    if items.len() == 0 {
        assert(buffer + items =~= buffer);
    } else {
        lemma_push_all_appends(buffer.push(items.first()), items.drop_first());
        assert(buffer.push(items.first()) + items.drop_first() =~= buffer + items);
    }
}

/// Last in, first out: after any number of pushes, as many pops hand the
/// pushed items back in the opposite order, and leave the buffer as it was
/// before the pushes.
pub proof fn lemma_pops_reverse_pushes(buffer: Seq<Seq<char>>, items: Seq<Seq<char>>)
    ensures
        popped(push_all(buffer, items), items.len()).len() == items.len(),
        forall|i: int|
            0 <= i < items.len() ==> #[trigger] popped(push_all(buffer, items), items.len())[i]
                == Some(items[items.len() - 1 - i]),
        pop_all(push_all(buffer, items), items.len()) == buffer,
    decreases items.len(),
{
    lemma_push_all_appends(buffer, items);
    if items.len() == 0 {
        assert(buffer + items =~= buffer);
    } else {
        let shorter = items.drop_last();
        lemma_push_all_appends(buffer, shorter);
        lemma_pops_reverse_pushes(buffer, shorter);
        assert((buffer + items).drop_last() =~= buffer + shorter);
        assert((buffer + items).last() == items.last());
        let all = popped(buffer + items, items.len());
        let rest = popped(buffer + shorter, shorter.len());
        assert(all == seq![Some(items.last())] + rest);
        assert forall|i: int| 0 <= i < items.len() implies #[trigger] all[i] == Some(
            items[items.len() - 1 - i],
        ) by {
            if i > 0 {
                assert(all[i] == rest[i - 1]);
                assert(shorter[shorter.len() - 1 - (i - 1)] == items[items.len() - 1 - i]);
            }
        }
    }
}

/// A reset leaves the buffer empty, whatever it held.
pub proof fn lemma_reset_empties(buffer: Seq<Seq<char>>)
    ensures
        reset_model(buffer).buffer.len() == 0,
        reset_model(buffer).result == Ok::<ResponseView, ContractErrorView>(ResponseView::empty()),
{
}

/// The events that the first `k` commands of `program` emit, in the order
/// of the commands.
pub open spec fn events_of(program: Seq<CommandView>, k: int) -> Seq<EventView>
    decreases k,
{
    if k <= 0 {
        Seq::empty()
    } else if k > program.len() {
        events_of(program, k - 1)
    } else {
        match program[k - 1] {
            CommandView::Ev(ty, attributes) => events_of(program, k - 1).push(
                EventView { ty, attributes },
            ),
            _ => events_of(program, k - 1),
        }
    }
}

/// The attributes that the first `k` commands of `program` set, in the
/// order of the commands.
pub open spec fn attributes_of(program: Seq<CommandView>, k: int) -> Seq<AttributeView>
    decreases k,
{
    if k <= 0 {
        Seq::empty()
    } else if k > program.len() {
        attributes_of(program, k - 1)
    } else {
        match program[k - 1] {
            CommandView::Attr(key, value) => attributes_of(program, k - 1).push(
                AttributeView { key, value },
            ),
            _ => attributes_of(program, k - 1),
        }
    }
}

/// Whether every command of `program` emits an event or sets an attribute.
pub open spec fn only_emits(program: Seq<CommandView>) -> bool {
    forall|i: int| 0 <= i < program.len() ==> #[trigger] program[i] is Ev || program[i] is Attr
}

/// The first `k` commands of a program that only emits events and sets
/// attributes leave one entry each, in their order, and nothing else.
pub proof fn lemma_emitting_prefix(
    program: Seq<CommandView>,
    k: int,
    buffer: Seq<Seq<char>>,
    addr: Seq<char>,
)
    requires
        only_emits(program),
        0 <= k <= program.len(),
    ensures
        run_prefix(program, k, buffer, addr) == (Outcome {
            buffer,
            result: Ok(
                ResponseView {
                    messages: Seq::empty(),
                    attributes: attributes_of(program, k),
                    events: events_of(program, k),
                    data: None,
                },
            ),
        }),
        events_of(program, k).len() + attributes_of(program, k).len() == k,
    decreases k,
{
    if k > 0 {
        lemma_emitting_prefix(program, k - 1, buffer, addr);
        assert(program[k - 1] is Ev || program[k - 1] is Attr);
    }
}

/// A program of `n` commands that only emits events and sets attributes
/// does not fail, leaves the buffer alone, and responds with exactly `n`
/// entries, each kind in the order of its commands.
pub proof fn lemma_emissions_accumulate(
    program: Seq<CommandView>,
    buffer: Seq<Seq<char>>,
    addr: Seq<char>,
)
    requires
        only_emits(program),
    ensures
        run_model(program, buffer, addr) == (Outcome {
            buffer,
            result: Ok(
                ResponseView {
                    messages: Seq::empty(),
                    attributes: attributes_of(program, program.len() as int),
                    events: events_of(program, program.len() as int),
                    data: None,
                },
            ),
        }),
        events_of(program, program.len() as int).len() + attributes_of(
            program,
            program.len() as int,
        ).len() == program.len(),
{
    lemma_emitting_prefix(program, program.len() as int, buffer, addr);
}

/// Whether no command of `program` is a nested request or stops the
/// program.
pub open spec fn is_flat(program: Seq<CommandView>) -> bool {
    forall|i: int|
        0 <= i < program.len() ==> !(#[trigger] program[i] is Msg) && !(program[i] is Throw)
}

/// The first `k` commands of a program without nested requests and without
/// a command that stops it do not fail and leave the buffer alone, and the
/// events and the attributes of the response are those of the commands, in
/// their order.
pub proof fn lemma_flat_prefix(
    program: Seq<CommandView>,
    k: int,
    buffer: Seq<Seq<char>>,
    addr: Seq<char>,
)
    requires
        is_flat(program),
        0 <= k <= program.len(),
    ensures
        run_prefix(program, k, buffer, addr).buffer == buffer,
        run_prefix(program, k, buffer, addr).result is Ok,
        run_prefix(program, k, buffer, addr).result->Ok_0.events == events_of(program, k),
        run_prefix(program, k, buffer, addr).result->Ok_0.attributes == attributes_of(program, k),
    decreases k,
{
    if k > 0 {
        lemma_flat_prefix(program, k - 1, buffer, addr);
        assert(!(program[k - 1] is Msg) && !(program[k - 1] is Throw));
    }
}

/// A program without nested requests and without a command that stops it
/// does not fail and leaves the buffer alone, and the events and the
/// attributes of its response are those of its commands, in their order,
/// whatever else the commands register.
pub proof fn lemma_flat_program_emissions(
    program: Seq<CommandView>,
    buffer: Seq<Seq<char>>,
    addr: Seq<char>,
)
    requires
        is_flat(program),
    ensures
        run_model(program, buffer, addr).buffer == buffer,
        run_model(program, buffer, addr).result is Ok,
        run_model(program, buffer, addr).result->Ok_0.events == events_of(
            program,
            program.len() as int,
        ),
        run_model(program, buffer, addr).result->Ok_0.attributes == attributes_of(
            program,
            program.len() as int,
        ),
{
    lemma_flat_prefix(program, program.len() as int, buffer, addr);
}

/// Where the command at position `k` stops the program and none before it
/// has failed, the program fails with the message of that command alone:
/// nothing of what was accumulated comes back. The buffer is the one that
/// the commands before it have left, nested requests included.
pub proof fn lemma_abort_discards_response(
    program: Seq<CommandView>,
    k: int,
    buffer: Seq<Seq<char>>,
    addr: Seq<char>,
)
    requires
        0 <= k < program.len(),
        program[k] is Throw,
        run_prefix(program, k, buffer, addr).result is Ok,
    ensures
        run_model(program, buffer, addr) == (Outcome {
            buffer: run_prefix(program, k, buffer, addr).buffer,
            result: Err(ContractErrorView::Custom { msg: program[k]->Throw_0 }),
        }),
{
    lemma_failure_is_final(program, k + 1, program.len() as int, buffer, addr);
}

/// A program that holds a command that stops it hands no response back,
/// whatever else it holds.
pub proof fn lemma_abort_means_no_response(
    program: Seq<CommandView>,
    k: int,
    buffer: Seq<Seq<char>>,
    addr: Seq<char>,
)
    requires
        0 <= k < program.len(),
        program[k] is Throw,
    ensures
        run_model(program, buffer, addr).result is Err,
{
    if run_prefix(program, k, buffer, addr).result is Ok {
        lemma_abort_discards_response(program, k, buffer, addr);
    } else {
        lemma_failure_is_final(program, k, program.len() as int, buffer, addr);
    }
}

/// A nested push followed by a command that stops the program: the program
/// fails, and the pushed item is on the buffer all the same.
pub proof fn lemma_nested_write_survives_abort(
    data: Seq<char>,
    msg: Seq<char>,
    buffer: Seq<Seq<char>>,
    addr: Seq<char>,
)
    ensures
        run_model(
            seq![CommandView::Msg(ExecuteMsgView::Push { data }), CommandView::Throw(msg)],
            buffer,
            addr,
        ) == (Outcome {
            buffer: buffer.push(data),
            result: Err(ContractErrorView::Custom { msg }),
        }),
{
    let program = seq![CommandView::Msg(ExecuteMsgView::Push { data }), CommandView::Throw(msg)];
    let start = run_prefix(program, 0, buffer, addr);
    assert(start == (Outcome { buffer, result: Ok(ResponseView::empty()) }));
    assert(program[0] == CommandView::Msg(ExecuteMsgView::Push { data }));
    assert(execute_model(ExecuteMsgView::Push { data }, buffer, addr) == push_model(data, buffer));
    assert(run_prefix(program, 1, buffer, addr) == (Outcome {
        buffer: buffer.push(data),
        result: Ok(ResponseView::empty().merge(ResponseView::empty())),
    }));
    lemma_abort_discards_response(program, 1, buffer, addr);
}

/// Where the last command of a program sets the payload and none before it
/// has failed, the response carries that payload, whatever was set before.
pub proof fn lemma_last_payload_wins(
    program: Seq<CommandView>,
    buffer: Seq<Seq<char>>,
    addr: Seq<char>,
)
    requires
        program.len() > 0,
        program.last() is Data,
        run_prefix(program, program.len() - 1, buffer, addr).result is Ok,
    ensures
        run_model(program, buffer, addr).result is Ok,
        run_model(program, buffer, addr).result->Ok_0.data == Some(program.last()->Data_0),
        run_model(program, buffer, addr).buffer == run_prefix(
            program,
            program.len() - 1,
            buffer,
            addr,
        ).buffer,
{
}

/// Two payloads set one after the other: the response carries the second.
pub proof fn lemma_second_payload_wins(
    first: Seq<u8>,
    second: Seq<u8>,
    buffer: Seq<Seq<char>>,
    addr: Seq<char>,
)
    ensures
        run_model(seq![CommandView::Data(first), CommandView::Data(second)], buffer, addr) == (
        Outcome { buffer, result: Ok(ResponseView::empty().set_data(second)) }),
{
    let program = seq![CommandView::Data(first), CommandView::Data(second)];
    assert(run_prefix(program, 0, buffer, addr) == (Outcome {
        buffer,
        result: Ok(ResponseView::empty()),
    }));
    assert(program[0] == CommandView::Data(first));
    assert(run_prefix(program, 1, buffer, addr) == (Outcome {
        buffer,
        result: Ok(ResponseView::empty().set_data(first)),
    }));
    assert(program[1] == CommandView::Data(second));
}

/// The first `k` commands of a program do the same in every program that
/// starts with them.
pub proof fn lemma_prefix_only(
    p: Seq<CommandView>,
    q: Seq<CommandView>,
    k: int,
    buffer: Seq<Seq<char>>,
    addr: Seq<char>,
)
    requires
        0 <= k <= p.len(),
        k <= q.len(),
        forall|i: int| 0 <= i < k ==> p[i] == q[i],
    ensures
        run_prefix(p, k, buffer, addr) == run_prefix(q, k, buffer, addr),
    decreases k,
{
    if k > 0 {
        lemma_prefix_only(p, q, k - 1, buffer, addr);
        assert(p[k - 1] == q[k - 1]);
    }
}

/// Merging is associative.
pub proof fn lemma_merge_associates(a: ResponseView, b: ResponseView, c: ResponseView)
    ensures
        a.merge(b).merge(c) == a.merge(b.merge(c)),
{
    let left = a.merge(b).merge(c);
    let right = a.merge(b.merge(c));
    assert(left.messages =~= right.messages);
    assert(left.attributes =~= right.attributes);
    assert(left.events =~= right.events);
}

/// Merging with the empty response changes nothing, on either side.
pub proof fn lemma_merge_empty(a: ResponseView)
    ensures
        a.merge(ResponseView::empty()) == a,
        ResponseView::empty().merge(a) == a,
{
    let right = a.merge(ResponseView::empty());
    assert(right.messages =~= a.messages);
    assert(right.attributes =~= a.attributes);
    assert(right.events =~= a.events);
    let left = ResponseView::empty().merge(a);
    assert(left.messages =~= a.messages);
    assert(left.attributes =~= a.attributes);
    assert(left.events =~= a.events);
}

/// What `first` became once `second`, which started where `first` ended,
/// has run too: a failure of either is the failure of both, and otherwise
/// the response of `second` is merged into that of `first`.
pub open spec fn followed_by(first: Outcome, second: Outcome) -> Outcome {
    match first.result {
        Err(_) => first,
        Ok(acc) => Outcome {
            buffer: second.buffer,
            result: match second.result {
                Ok(response) => Ok(acc.merge(response)),
                Err(error) => Err(error),
            },
        },
    }
}

/// A command does to a merged response what it does to the later of the
/// two merged ones.
pub proof fn lemma_accumulate_after_merge(
    cmd: CommandView,
    acc: ResponseView,
    later: ResponseView,
    addr: Seq<char>,
)
    requires
        !(cmd is Msg),
    ensures
        accumulate(cmd, acc.merge(later), addr) == match accumulate(cmd, later, addr) {
            Ok(response) => Ok::<ResponseView, ContractErrorView>(acc.merge(response)),
            Err(error) => Err(error),
        },
{
    match accumulate(cmd, later, addr) {
        Ok(response) => {
            let left = accumulate(cmd, acc.merge(later), addr)->Ok_0;
            let right = acc.merge(response);
            assert(left.messages =~= right.messages);
            assert(left.attributes =~= right.attributes);
            assert(left.events =~= right.events);
        },
        Err(_) => {},
    }
}

/// The first `p.len() + j` commands of `p` followed by `q` do what `p`
/// does, followed by what the first `j` commands of `q` do where `p` ended.
pub proof fn lemma_concat_prefix(
    p: Seq<CommandView>,
    q: Seq<CommandView>,
    j: int,
    buffer: Seq<Seq<char>>,
    addr: Seq<char>,
)
    requires
        0 <= j <= q.len(),
    ensures
        run_prefix(p + q, p.len() + j, buffer, addr) == followed_by(
            run_model(p, buffer, addr),
            run_prefix(q, j, run_model(p, buffer, addr).buffer, addr),
        ),
    decreases j,
{
    let first = run_model(p, buffer, addr);
    if j == 0 {
        lemma_prefix_only(p + q, p, p.len() as int, buffer, addr);
        if first.result is Ok {
            lemma_merge_empty(first.result->Ok_0);
        }
    } else {
        lemma_concat_prefix(p, q, j - 1, buffer, addr);
        let cmd = q[j - 1];
        assert((p + q)[p.len() + j - 1] == cmd);
        let before = run_prefix(q, j - 1, first.buffer, addr);
        if first.result is Ok && before.result is Ok {
            let acc = first.result->Ok_0;
            let later = before.result->Ok_0;
            match cmd {
                CommandView::Msg(msg) => {
                    let nested = execute_model(msg, before.buffer, addr);
                    if nested.result is Ok {
                        lemma_merge_associates(acc, later, nested.result->Ok_0);
                    }
                },
                _ => {
                    lemma_accumulate_after_merge(cmd, acc, later, addr);
                },
            }
        }
    }
}

/// Programs compose: one program followed by another does what the first
/// does, followed by what the second does on the buffer that the first has
/// left. Where the first fails, the second does not run.
pub proof fn lemma_run_concat(
    p: Seq<CommandView>,
    q: Seq<CommandView>,
    buffer: Seq<Seq<char>>,
    addr: Seq<char>,
)
    ensures
        run_model(p + q, buffer, addr) == followed_by(
            run_model(p, buffer, addr),
            run_model(q, run_model(p, buffer, addr).buffer, addr),
        ),
{
    lemma_concat_prefix(p, q, q.len() as int, buffer, addr);
}

/// A program that holds nothing but one nested request does what the
/// request does.
pub proof fn lemma_nesting_is_transparent(
    msg: ExecuteMsgView,
    buffer: Seq<Seq<char>>,
    addr: Seq<char>,
)
    ensures
        run_model(seq![CommandView::Msg(msg)], buffer, addr) == execute_model(msg, buffer, addr),
{
    let program = seq![CommandView::Msg(msg)];
    let start = run_prefix(program, 0, buffer, addr);
    assert(start == (Outcome { buffer, result: Ok(ResponseView::empty()) }));
    assert(program[0] == CommandView::Msg(msg));
    let nested = execute_model(msg, buffer, addr);
    if nested.result is Ok {
        lemma_merge_empty(nested.result->Ok_0);
    }
}

/// A nested program does what its commands would do in its place: running
/// `inner` as one nested request and then `rest` is running the commands of
/// `inner` and then `rest`.
pub proof fn lemma_nested_program_inlines(
    inner: Seq<CommandView>,
    rest: Seq<CommandView>,
    buffer: Seq<Seq<char>>,
    addr: Seq<char>,
)
    ensures
        run_model(
            seq![CommandView::Msg(ExecuteMsgView::Run { program: inner })] + rest,
            buffer,
            addr,
        ) == run_model(inner + rest, buffer, addr),
{
    let wrapped = seq![CommandView::Msg(ExecuteMsgView::Run { program: inner })];
    lemma_nesting_is_transparent(ExecuteMsgView::Run { program: inner }, buffer, addr);
    lemma_run_concat(wrapped, rest, buffer, addr);
    lemma_run_concat(inner, rest, buffer, addr);
}

/// Two pushes in a nested program and a third after it: the three items are
/// on the buffer in the order of the pushes, and the response is empty.
pub proof fn lemma_nested_pushes(
    a: Seq<char>,
    b: Seq<char>,
    c: Seq<char>,
    buffer: Seq<Seq<char>>,
    addr: Seq<char>,
)
    ensures
        run_model(
            seq![
                CommandView::Msg(
                    ExecuteMsgView::Run {
                        program: seq![
                            CommandView::Msg(ExecuteMsgView::Push { data: a }),
                            CommandView::Msg(ExecuteMsgView::Push { data: b }),
                        ],
                    },
                ),
                CommandView::Msg(ExecuteMsgView::Push { data: c }),
            ],
            buffer,
            addr,
        ) == (Outcome { buffer: buffer.push(a).push(b).push(c), result: Ok(ResponseView::empty()) }),
{
    let push_a = seq![CommandView::Msg(ExecuteMsgView::Push { data: a })];
    let push_b = seq![CommandView::Msg(ExecuteMsgView::Push { data: b })];
    let push_c = seq![CommandView::Msg(ExecuteMsgView::Push { data: c })];
    let inner = push_a + push_b;
    let nested = seq![CommandView::Msg(ExecuteMsgView::Run { program: inner })];
    assert(inner =~= seq![
        CommandView::Msg(ExecuteMsgView::Push { data: a }),
        CommandView::Msg(ExecuteMsgView::Push { data: b }),
    ]);
    assert(nested + push_c =~= seq![
        CommandView::Msg(ExecuteMsgView::Run { program: inner }),
        CommandView::Msg(ExecuteMsgView::Push { data: c }),
    ]);
    lemma_nesting_is_transparent(ExecuteMsgView::Push { data: a }, buffer, addr);
    lemma_nesting_is_transparent(ExecuteMsgView::Push { data: b }, buffer.push(a), addr);
    lemma_nesting_is_transparent(ExecuteMsgView::Push { data: c }, buffer.push(a).push(b), addr);
    lemma_run_concat(push_a, push_b, buffer, addr);
    lemma_merge_empty(ResponseView::empty());
    lemma_nested_program_inlines(inner, push_c, buffer, addr);
    lemma_run_concat(inner, push_c, buffer, addr);
}

/// The two handlers end in opposite ways: on one report the first succeeds
/// exactly where the request did, and the second exactly where it did not.
pub proof fn lemma_handlers_are_opposite(msg: ReplyView)
    ensures
        reply_id_model(msg) is Ok <==> msg.result is Ok,
        reply_inv_model(msg) is Ok <==> msg.result is Err,
        reply_id_model(msg) is Ok <==> reply_inv_model(msg) is Err,
{
}

/// A reply under an id other than the two that the contract waits for
/// fails, whatever it reports.
pub proof fn lemma_unregistered_id_fails(msg: ReplyView)
    requires
        msg.id != 1,
        msg.id != 2,
    ensures
        reply_model(msg) == Err::<ResponseView, ContractErrorView>(unknown_reply_id()),
{
}

} // verus!
