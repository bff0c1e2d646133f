//! The questions that the contract answers.

use crate::msg::GetBufferResponse;
use crate::state::Buffer;
use vstd::prelude::*;

verus! {

/// The stored buffer, as it stands.
pub fn buffer(storage: &Buffer) -> (answer: GetBufferResponse)
    ensures
        answer.buffer@ == storage@,
{
    GetBufferResponse { buffer: storage.duplicate() }
}

} // verus!
