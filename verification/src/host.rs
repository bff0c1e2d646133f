//! The call into `cosmwasm_std`. Nothing here is proved: the contract
//! restates what the called function does, and the rest of the crate is
//! proved from it.

use cosmwasm_std::StdError;
use vstd::prelude::*;

verus! {

/// The host's error type; nothing inside it is visible here.
#[verifier::external_type_specification]
#[verifier::external_body]
pub struct ExStdError(StdError);

/// The JSON string literal that `cosmwasm_std::to_binary` writes for the
/// string `text`: the quoted text with its escapes, in UTF-8.
pub uninterp spec fn json_string(text: Seq<char>) -> Seq<u8>;

/// The four bytes of the JSON literal `null`.
pub open spec fn json_null() -> Seq<u8> {
    seq![0x6eu8, 0x75u8, 0x6cu8, 0x6cu8]
}

/// The JSON encoding of an optional string: `null` where there is none, the
/// string literal otherwise.
pub open spec fn json_optional_string(text: Option<Seq<char>>) -> Seq<u8> {
    match text {
        Some(s) => json_string(s),
        None => json_null(),
    }
}

/// Calls `cosmwasm_std::to_binary` on an optional string and hands back the
/// bytes of the result. The JSON serializer behind that call writes `null`
/// for `None` and a string literal for `Some`, and returns `Ok` from both on
/// every input, so the call does not fail.
#[verifier::external_body]
#[allow(deprecated)]
pub(crate) fn encode_optional_string(text: &Option<String>) -> (encoded: Result<
    Vec<u8>,
    StdError,
>)
    ensures
        encoded is Ok,
        encoded matches Ok(bytes) ==> (*text matches Some(s) ==> bytes@ == json_string(s@)),
        encoded matches Ok(bytes) ==> (*text is None ==> bytes@ == json_null()),
{
    match cosmwasm_std::to_binary(text) {
        Ok(binary) => Ok(binary.0),
        Err(e) => Err(e),
    }
}

} // verus!
