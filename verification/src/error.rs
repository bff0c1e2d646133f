//! The ways in which an invocation fails.

use crate::results::{Event, EventView};
use crate::views::{bytes_view, views};
use cosmwasm_std::StdError;
use vstd::prelude::*;

verus! {

/// The failure of an invocation.
#[derive(Debug, PartialEq)]
pub enum ContractError {
    /// A failure reported by the host's library.
    Std(StdError),
    /// The caller may not do what it asked for.
    Unauthorized {},
    /// A failure that carries only a message: a program stopped itself, a
    /// request failed, or a reply came under an id that nobody waits for.
    Custom { msg: String },
    /// A request succeeded where its failure was expected; what it responded
    /// is carried along.
    ReplyInv { data: Option<Vec<u8>>, events: Vec<Event> },
}

/// What a [`ContractError`] holds.
pub enum ContractErrorView {
    Std(StdError),
    Unauthorized,
    Custom { msg: Seq<char> },
    ReplyInv { data: Option<Seq<u8>>, events: Seq<EventView> },
}

impl View for ContractError {
    type V = ContractErrorView;

    open spec fn view(&self) -> ContractErrorView {
        match *self {
            ContractError::Std(e) => ContractErrorView::Std(e),
            ContractError::Unauthorized {  } => ContractErrorView::Unauthorized,
            ContractError::Custom { msg } => ContractErrorView::Custom { msg: msg@ },
            ContractError::ReplyInv { data, events } => ContractErrorView::ReplyInv {
                data: bytes_view(data),
                events: views(events@),
            },
        }
    }
}

impl From<StdError> for ContractError {
    /// A failure of the host's library as a failure of the contract.
    fn from(error: StdError) -> (converted: ContractError) {
        ContractError::Std(error)
    }
}

impl vstd::std_specs::convert::FromSpecImpl<StdError> for ContractError {
    open spec fn obeys_from_spec() -> bool {
        true
    }

    open spec fn from_spec(error: StdError) -> ContractError {
        ContractError::Std(error)
    }
}

} // verus!
