//! What one invocation hands back to the host: events, attributes, a payload
//! and outgoing requests, and what the host reports about a finished request.

use crate::msg::{ExecuteMsg, ExecuteMsgView};
use crate::views::{bytes_view, lemma_views_add, lemma_views_push, views};
use vstd::prelude::*;

verus! {

/// A key with its value, attached to a response or to an event.
#[derive(Clone, Debug, PartialEq, Eq)]
pub struct Attribute {
    pub key: String,
    pub value: String,
}

/// What an [`Attribute`] holds.
pub struct AttributeView {
    pub key: Seq<char>,
    pub value: Seq<char>,
}

impl View for Attribute {
    type V = AttributeView;

    open spec fn view(&self) -> AttributeView {
        AttributeView { key: self.key@, value: self.value@ }
    }
}

/// A typed event with its attributes.
#[derive(Clone, Debug, PartialEq, Eq)]
pub struct Event {
    pub ty: String,
    pub attributes: Vec<Attribute>,
}

/// What an [`Event`] holds.
pub struct EventView {
    pub ty: Seq<char>,
    pub attributes: Seq<AttributeView>,
}

impl View for Event {
    type V = EventView;

    open spec fn view(&self) -> EventView {
        EventView { ty: self.ty@, attributes: views(self.attributes@) }
    }
}

/// The attribute that a pair of key and value stands for.
pub open spec fn pair_view(pair: (String, String)) -> AttributeView {
    AttributeView { key: pair.0@, value: pair.1@ }
}

/// The attributes that a list of pairs stands for, in the same order.
pub open spec fn pairs_view(pairs: Seq<(String, String)>) -> Seq<AttributeView> {
    Seq::new(pairs.len(), |i: int| pair_view(pairs[i]))
}

impl Event {
    /// An event of type `ty` without attributes.
    pub fn new(ty: String) -> (event: Event)
        ensures
            event@ == (EventView { ty: ty@, attributes: Seq::empty() }),
    {
        let event = Event { ty, attributes: Vec::new() };
        assert(views(event.attributes@) =~= Seq::empty());
        event
    }

    /// Appends one attribute.
    pub fn add_attribute(self, key: String, value: String) -> (event: Event)
        ensures
            event@ == (EventView {
                ty: self@.ty,
                attributes: self@.attributes.push(AttributeView { key: key@, value: value@ }),
            }),
    {
        let mut event = self;
        proof {
            lemma_views_push(event.attributes@, Attribute { key, value });
        }
        event.attributes.push(Attribute { key, value });
        event
    }

    /// Appends one attribute for each pair, in the order of the pairs.
    pub fn add_attributes(self, pairs: Vec<(String, String)>) -> (event: Event)
        ensures
            event@ == (EventView {
                ty: self@.ty,
                attributes: self@.attributes + pairs_view(pairs@),
            }),
    {
        let mut event = self;
        let ghost all = pairs@;
        for pair in it: pairs
            invariant
                it.seq() == all,
                event.ty == self.ty,
                views(event.attributes@) == self@.attributes + pairs_view(
                    all.subrange(0, it.index() as int),
                ),
        {
            let (key, value) = pair;
            proof {
                lemma_views_push(event.attributes@, Attribute { key, value });
                assert(pairs_view(all.subrange(0, it.index() + 1)) =~= pairs_view(
                    all.subrange(0, it.index() as int),
                ).push(pair_view(pair)));
            }
            event.attributes.push(Attribute { key, value });
            assert(views(event.attributes@) =~= self@.attributes + pairs_view(
                all.subrange(0, it.index() + 1),
            ));
        }
        assert(all.subrange(0, all.len() as int) =~= all);
        event
    }
}

/// An amount of one native asset.
#[derive(Clone, Debug, PartialEq, Eq)]
pub struct Coin {
    pub denom: String,
    pub amount: u128,
}

/// What a [`Coin`] holds.
pub struct CoinView {
    pub denom: Seq<char>,
    pub amount: u128,
}

impl View for Coin {
    type V = CoinView;

    open spec fn view(&self) -> CoinView {
        CoinView { denom: self.denom@, amount: self.amount }
    }
}

/// A request to the bank: a transfer of native assets, or their destruction.
#[derive(Clone, Debug, PartialEq, Eq)]
pub enum BankMsg {
    Send { to_address: String, amount: Vec<Coin> },
    Burn { amount: Vec<Coin> },
}

/// What a [`BankMsg`] holds.
pub enum BankMsgView {
    Send { to_address: Seq<char>, amount: Seq<CoinView> },
    Burn { amount: Seq<CoinView> },
}

impl View for BankMsg {
    type V = BankMsgView;

    open spec fn view(&self) -> BankMsgView {
        match *self {
            BankMsg::Send { to_address, amount } => BankMsgView::Send {
                to_address: to_address@,
                amount: views(amount@),
            },
            BankMsg::Burn { amount } => BankMsgView::Burn { amount: views(amount@) },
        }
    }
}

/// On which outcome of an outgoing request the host calls back.
#[derive(Clone, Copy, Debug, PartialEq, Eq)]
pub enum ReplyOn {
    Always,
    Error,
    Success,
    Never,
}

/// A request to a contract.
#[derive(Debug, PartialEq)]
pub enum WasmMsg {
    /// Runs `msg` on the contract at `contract_addr`, sending `funds` along.
    Execute { contract_addr: String, msg: ExecuteMsg, funds: Vec<Coin> },
}

/// What a [`WasmMsg`] holds.
pub enum WasmMsgView {
    Execute { contract_addr: Seq<char>, msg: ExecuteMsgView, funds: Seq<CoinView> },
}

impl View for WasmMsg {
    type V = WasmMsgView;

    open spec fn view(&self) -> WasmMsgView {
        match *self {
            WasmMsg::Execute { contract_addr, msg, funds } => WasmMsgView::Execute {
                contract_addr: contract_addr@,
                msg: msg@,
                funds: views(funds@),
            },
        }
    }
}

/// An outgoing request.
#[derive(Debug, PartialEq)]
pub enum CosmosMsg {
    Bank(BankMsg),
    Wasm(WasmMsg),
}

/// What a [`CosmosMsg`] holds.
pub enum CosmosMsgView {
    Bank(BankMsgView),
    Wasm(WasmMsgView),
}

impl View for CosmosMsg {
    type V = CosmosMsgView;

    open spec fn view(&self) -> CosmosMsgView {
        match *self {
            CosmosMsg::Bank(m) => CosmosMsgView::Bank(m@),
            CosmosMsg::Wasm(m) => CosmosMsgView::Wasm(m@),
        }
    }
}

/// An outgoing request with the id under which its completion is reported
/// and the policy that says when it is.
#[derive(Debug, PartialEq)]
pub struct SubMsg {
    pub id: u64,
    pub msg: CosmosMsg,
    pub gas_limit: Option<u64>,
    pub reply_on: ReplyOn,
}

/// What a [`SubMsg`] holds.
pub struct SubMsgView {
    pub id: u64,
    pub msg: CosmosMsgView,
    pub gas_limit: Option<u64>,
    pub reply_on: ReplyOn,
}

impl View for SubMsg {
    type V = SubMsgView;

    open spec fn view(&self) -> SubMsgView {
        SubMsgView {
            id: self.id,
            msg: self.msg@,
            gas_limit: self.gas_limit,
            reply_on: self.reply_on,
        }
    }
}

/// The request `msg` sent without asking for a report: id 0, no gas limit,
/// never called back.
pub open spec fn fire_and_forget(msg: CosmosMsgView) -> SubMsgView {
    SubMsgView { id: 0, msg, gas_limit: None, reply_on: ReplyOn::Never }
}

impl SubMsg {
    /// Wraps `msg` as a request whose completion is not reported.
    pub fn new(msg: CosmosMsg) -> (sub: SubMsg)
        ensures
            sub@ == fire_and_forget(msg@),
    {
        SubMsg { id: 0, msg, gas_limit: None, reply_on: ReplyOn::Never }
    }
}

/// The response that one invocation accumulates.
#[derive(Debug, PartialEq)]
pub struct Response {
    pub messages: Vec<SubMsg>,
    pub attributes: Vec<Attribute>,
    pub events: Vec<Event>,
    pub data: Option<Vec<u8>>,
}

/// What a [`Response`] holds.
pub struct ResponseView {
    pub messages: Seq<SubMsgView>,
    pub attributes: Seq<AttributeView>,
    pub events: Seq<EventView>,
    pub data: Option<Seq<u8>>,
}

impl View for Response {
    type V = ResponseView;

    open spec fn view(&self) -> ResponseView {
        ResponseView {
            messages: views(self.messages@),
            attributes: views(self.attributes@),
            events: views(self.events@),
            data: bytes_view(self.data),
        }
    }
}

impl ResponseView {
    /// The response that holds nothing.
    pub open spec fn empty() -> ResponseView {
        ResponseView {
            messages: Seq::empty(),
            attributes: Seq::empty(),
            events: Seq::empty(),
            data: None,
        }
    }

    /// This response with `event` after its events.
    pub open spec fn add_event(self, event: EventView) -> ResponseView {
        ResponseView { events: self.events.push(event), ..self }
    }

    /// This response with the attribute `key`, `value` after its attributes.
    pub open spec fn add_attribute(self, key: Seq<char>, value: Seq<char>) -> ResponseView {
        ResponseView { attributes: self.attributes.push(AttributeView { key, value }), ..self }
    }

    /// This response with `data` as its payload, whatever it was before.
    pub open spec fn set_data(self, data: Seq<u8>) -> ResponseView {
        ResponseView { data: Some(data), ..self }
    }

    /// This response with `sub` after its outgoing requests.
    pub open spec fn add_submessage(self, sub: SubMsgView) -> ResponseView {
        ResponseView { messages: self.messages.push(sub), ..self }
    }

    /// This response with `msg` after its outgoing requests, sent without
    /// asking for a report.
    pub open spec fn add_message(self, msg: CosmosMsgView) -> ResponseView {
        self.add_submessage(fire_and_forget(msg))
    }

    /// This response followed by `other`: requests, attributes and events of
    /// `other` come after those of `self`, and the payload of `other` wins
    /// where it has one.
    pub open spec fn merge(self, other: ResponseView) -> ResponseView {
        ResponseView {
            messages: self.messages + other.messages,
            attributes: self.attributes + other.attributes,
            events: self.events + other.events,
            data: if other.data is Some {
                other.data
            } else {
                self.data
            },
        }
    }
}

impl Response {
    /// A response that holds nothing.
    pub fn new() -> (response: Response)
        ensures
            response@ == ResponseView::empty(),
    {
        let response = Response {
            messages: Vec::new(),
            attributes: Vec::new(),
            events: Vec::new(),
            data: None,
        };
        assert(views(response.messages@) =~= Seq::empty());
        assert(views(response.attributes@) =~= Seq::empty());
        assert(views(response.events@) =~= Seq::empty());
        response
    }

    /// Appends an event.
    pub fn add_event(self, event: Event) -> (response: Response)
        ensures
            response@ == self@.add_event(event@),
    {
        let mut response = self;
        proof {
            lemma_views_push(response.events@, event);
        }
        response.events.push(event);
        response
    }

    /// Appends an attribute.
    pub fn add_attribute(self, key: String, value: String) -> (response: Response)
        ensures
            response@ == self@.add_attribute(key@, value@),
    {
        let mut response = self;
        proof {
            lemma_views_push(response.attributes@, Attribute { key, value });
        }
        response.attributes.push(Attribute { key, value });
        response
    }

    /// Sets the payload, overwriting an earlier one.
    pub fn set_data(self, data: Vec<u8>) -> (response: Response)
        ensures
            response@ == self@.set_data(data@),
    {
        let mut response = self;
        response.data = Some(data);
        response
    }

    /// Appends an outgoing request whose completion is not reported.
    pub fn add_message(self, msg: CosmosMsg) -> (response: Response)
        ensures
            response@ == self@.add_message(msg@),
    {
        self.add_submessage(SubMsg::new(msg))
    }

    /// Appends an outgoing request.
    pub fn add_submessage(self, sub: SubMsg) -> (response: Response)
        ensures
            response@ == self@.add_submessage(sub@),
    {
        let mut response = self;
        proof {
            lemma_views_push(response.messages@, sub);
        }
        response.messages.push(sub);
        response
    }

    /// Appends what `other` holds after what this response holds. The
    /// payload of `other` replaces the one here if `other` has one.
    pub fn merge(self, other: Response) -> (response: Response)
        ensures
            response@ == self@.merge(other@),
    {
        let mut response = self;
        let mut other = other;
        proof {
            lemma_views_add(response.messages@, other.messages@);
            lemma_views_add(response.attributes@, other.attributes@);
            lemma_views_add(response.events@, other.events@);
        }
        response.messages.append(&mut other.messages);
        response.attributes.append(&mut other.attributes);
        response.events.append(&mut other.events);
        if other.data.is_some() {
            response.data = other.data;
        }
        response
    }
}

impl Default for Response {
    fn default() -> (response: Response)
        ensures
            response@ == ResponseView::empty(),
    {
        Response::new()
    }
}

/// What the host reports of a request that completed successfully.
#[derive(Clone, Debug, PartialEq, Eq)]
pub struct SubMsgResponse {
    pub events: Vec<Event>,
    pub data: Option<Vec<u8>>,
}

/// What a [`SubMsgResponse`] holds.
pub struct SubMsgResponseView {
    pub events: Seq<EventView>,
    pub data: Option<Seq<u8>>,
}

impl View for SubMsgResponse {
    type V = SubMsgResponseView;

    open spec fn view(&self) -> SubMsgResponseView {
        SubMsgResponseView { events: views(self.events@), data: bytes_view(self.data) }
    }
}

/// The host's report on the outgoing request that carried `id`: what the
/// request responded, or the message with which it failed.
#[derive(Debug, PartialEq, Eq)]
pub struct Reply {
    pub id: u64,
    pub result: Result<SubMsgResponse, String>,
}

/// What a [`Reply`] holds.
pub struct ReplyView {
    pub id: u64,
    pub result: Result<SubMsgResponseView, Seq<char>>,
}

impl View for Reply {
    type V = ReplyView;

    open spec fn view(&self) -> ReplyView {
        ReplyView {
            id: self.id,
            result: match self.result {
                Ok(response) => Ok(response@),
                Err(text) => Err(text@),
            },
        }
    }
}

} // verus!
