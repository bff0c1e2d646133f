//! Verified core of a small buffer contract: a stack of strings, a command
//! interpreter that accumulates a response, and a router for replies.
//!
//! - [`state`] holds the buffer.
//! - [`msg`] holds the requests and the commands of a program.
//! - [`results`] holds the response that an invocation accumulates and the
//!   reports that come back on outgoing requests.
//! - [`error`] holds the failures.
//! - [`model`] says what every request does, over plain sequences.
//! - [`contract`] holds the entry points, each proved against the model.
//! - [`laws`] holds what follows for all buffers and all programs.
//! - [`host`] holds the call into `cosmwasm_std`.

pub mod contract;
pub mod error;
pub mod host;
pub mod laws;
pub mod model;
pub mod msg;
pub mod results;
pub mod state;
pub mod views;
