//! The two handlers for the host's reports on outgoing requests. Between
//! them they cover the four combinations of how a request ended and how its
//! handler ends: the first ends as the request did, the second the other way
//! round.

use crate::contract::ReplyCtx;
use crate::error::{ContractError, ContractErrorView};
use crate::model::result_view;
use crate::results::{AttributeView, Event, EventView, Reply, ReplyView, Response, ResponseView};
use vstd::prelude::*;

verus! {

/// The failure for a reply under an id that the contract does not wait for.
pub open spec fn unknown_reply_id() -> ContractErrorView {
    ContractErrorView::Custom { msg: "Unknown reply id"@ }
}

/// The response with the one event `ty` that has the one attribute `key`,
/// `value`.
pub open spec fn one_event(ty: Seq<char>, key: Seq<char>, value: Seq<char>) -> ResponseView {
    ResponseView::empty().add_event(
        EventView { ty, attributes: seq![AttributeView { key, value }] },
    )
}

/// The first handler: a request that succeeded gives a response with one
/// event, and one that failed gives its message as the failure.
pub open spec fn reply_id_model(msg: ReplyView) -> Result<ResponseView, ContractErrorView> {
    match msg.result {
        Ok(_) => Ok(one_event("reply_id"@, "key1"@, "value1"@)),
        Err(text) => Err(ContractErrorView::Custom { msg: text }),
    }
}

/// The second handler: a request that failed gives a response with one
/// event that carries its message, and one that succeeded gives a failure
/// that carries what the request responded.
pub open spec fn reply_inv_model(msg: ReplyView) -> Result<ResponseView, ContractErrorView> {
    match msg.result {
        Err(text) => Ok(one_event("reply_inv"@, "err"@, text)),
        Ok(response) => Err(
            ContractErrorView::ReplyInv { data: response.data, events: response.events },
        ),
    }
}

/// Ends as the request did.
pub fn reply_id(ctx: &ReplyCtx, msg: Reply) -> (res: Result<Response, ContractError>)
    ensures
        result_view(res) == reply_id_model(msg@),
{
    let Reply { id, result } = msg;
    match result {
        Ok(_) => {
            let event = Event::new("reply_id".to_owned()).add_attribute(
                "key1".to_owned(),
                "value1".to_owned(),
            );
            assert(event@.attributes =~= seq![AttributeView { key: "key1"@, value: "value1"@ }]);
            Ok(Response::new().add_event(event))
        },
        Err(text) => Err(ContractError::Custom { msg: text }),
    }
}

/// Ends the other way round than the request did.
pub fn reply_inv(ctx: &ReplyCtx, msg: Reply) -> (res: Result<Response, ContractError>)
    ensures
        result_view(res) == reply_inv_model(msg@),
{
    let Reply { id, result } = msg;
    match result {
        Err(text) => {
            let event = Event::new("reply_inv".to_owned()).add_attribute("err".to_owned(), text);
            assert(event@.attributes =~= seq![AttributeView { key: "err"@, value: text@ }]);
            Ok(Response::new().add_event(event))
        },
        Ok(response) => Err(
            ContractError::ReplyInv { data: response.data, events: response.events },
        ),
    }
}

} // verus!
