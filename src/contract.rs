//! The three entry points and what each returns.

use crate::host::{
    add_attribute, attributes_of, binary_from, binary_to_vec, bytes_of, decode_utf8,
    new_response, utf8_decoding,
};
use cosmwasm_std::{Binary, Response};
use vstd::prelude::*;

verus! {

/// The one failure the contract reports: a payload it cannot read, with a
/// description for the host.
#[derive(Debug, PartialEq, Eq)]
pub enum ContractError {
    InvalidInput(String),
}

/// The attributes of a successful `instantiate`.
pub open spec fn instantiate_attributes() -> Seq<(Seq<char>, Seq<char>)> {
    seq![("method"@, "instantiate"@)]
}

/// The attributes of a successful `execute` whose payload reads as `message`.
pub open spec fn execute_attributes(message: Seq<char>) -> Seq<(Seq<char>, Seq<char>)> {
    seq![("method"@, "execute"@), ("message"@, message)]
}

/// The description carried by the error on a payload that is not UTF-8.
pub open spec fn invalid_utf8_description() -> Seq<char> {
    "Invalid UTF-8"@
}

/// The bytes of the text "Hello, World!", which every query returns.
pub open spec fn greeting() -> Seq<u8> {
    seq![72u8, 101u8, 108u8, 108u8, 111u8, 44u8, 32u8, 87u8, 111u8, 114u8, 108u8, 100u8, 33u8]
}

/// What `execute` returns once its payload has been decoded (`None` for a
/// payload that is not UTF-8), seen through the response's attributes and
/// the error's description.
pub open spec fn execute_outcome(decoded: Option<Seq<char>>) -> Result<
    Seq<(Seq<char>, Seq<char>)>,
    Seq<char>,
> {
    match decoded {
        Some(message) => Ok(execute_attributes(message)),
        None => Err(invalid_utf8_description()),
    }
}

/// A result of `execute` seen through the response's attributes and the
/// error's description.
pub open spec fn outcome_view(r: Result<Response, ContractError>) -> Result<
    Seq<(Seq<char>, Seq<char>)>,
    Seq<char>,
> {
    match r {
        Ok(resp) => Ok(attributes_of(resp)),
        Err(ContractError::InvalidInput(d)) => Err(d@),
    }
}

/// Sets the contract up: it stores nothing and accepts any payload, so it
/// always succeeds with the one attribute `("method", "instantiate")`.
pub fn instantiate(msg: Binary) -> (r: Result<Response, ContractError>)
    ensures
        r matches Ok(resp) && attributes_of(resp) == instantiate_attributes(),
{
    proof {
        reveal_strlit("method");
    }
    let resp = new_response();
    let resp = add_attribute(resp, "method", "instantiate".to_string());
    assert(attributes_of(resp) =~= instantiate_attributes());
    Ok(resp)
}

/// Builds the response of `execute` from its decoded payload: the attributes
/// `("method", "execute")` and `("message", text)` for text, the invalid-input
/// error for a payload that did not decode.
pub fn execute_decoded(decoded: Option<String>) -> (r: Result<Response, ContractError>)
    ensures
        outcome_view(r) == execute_outcome(
            match decoded {
                Some(s) => Some(s@),
                None => None,
            },
        ),
{
    match decoded {
        Some(message) => {
            proof {
                reveal_strlit("method");
                reveal_strlit("message");
            }
            let ghost text = message@;
            let resp = new_response();
            let resp = add_attribute(resp, "method", "execute".to_string());
            let resp = add_attribute(resp, "message", message);
            assert(attributes_of(resp) =~= execute_attributes(text));
            Ok(resp)
        },
        None => Err(ContractError::InvalidInput("Invalid UTF-8".to_string())),
    }
}

/// Reads the payload as UTF-8 text and echoes it back: on valid UTF-8 the
/// response holds `("method", "execute")` then `("message", text)`; on any
/// other bytes the call fails with the invalid-input error and no response.
pub fn execute(msg: Binary) -> (r: Result<Response, ContractError>)
    ensures
        outcome_view(r) == execute_outcome(utf8_decoding(bytes_of(msg))),
        utf8_decoding(bytes_of(msg)) is Some <==> r is Ok,
{
    let bytes = binary_to_vec(&msg);
    let decoded = decode_utf8(bytes);
    execute_decoded(decoded)
}

/// Answers every query with the bytes of "Hello, World!", whatever the
/// payload.
pub fn query(msg: Binary) -> (r: Result<Binary, ContractError>)
    ensures
        r matches Ok(b) && bytes_of(b) == greeting(),
{
    let bytes: Vec<u8> = vec![72u8, 101u8, 108u8, 108u8, 111u8, 44u8, 32u8, 87u8, 111u8, 114u8, 108u8, 100u8, 33u8];
    Ok(binary_from(bytes))
}

/// Calling `execute` twice on the same payload gives the same outcome: the
/// same attributes, or the same error.
pub proof fn execute_idempotent(
    msg: Binary,
    r1: Result<Response, ContractError>,
    r2: Result<Response, ContractError>,
)
    requires
        outcome_view(r1) == execute_outcome(utf8_decoding(bytes_of(msg))),
        outcome_view(r2) == execute_outcome(utf8_decoding(bytes_of(msg))),
    ensures
        outcome_view(r1) == outcome_view(r2),
{
}

} // verus!
