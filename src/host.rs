//! The host's value types as the contract sees them, and the outside calls
//! that build or read them.

use cosmwasm_std::{Binary, Empty, Response};
use vstd::prelude::*;

verus! {

#[verifier::external_type_specification]
#[verifier::external_body]
pub struct ExEmpty(Empty);

#[verifier::external_type_specification]
#[verifier::external_body]
#[verifier::reject_recursive_types(T)]
pub struct ExResponse<T>(Response<T>);

#[verifier::external_type_specification]
#[verifier::external_body]
pub struct ExBinary(Binary);

/// The attributes of a response, in order, as (key, value) pairs.
pub uninterp spec fn attributes_of(r: Response) -> Seq<(Seq<char>, Seq<char>)>;

/// The bytes that a binary value holds.
pub uninterp spec fn bytes_of(b: Binary) -> Seq<u8>;

/// The text that a byte sequence decodes to as UTF-8, or `None` where it is
/// not valid UTF-8.
pub uninterp spec fn utf8_decoding(b: Seq<u8>) -> Option<Seq<char>>;

/// Relies on `cosmwasm_std::Response::new`: a response with no attributes.
#[verifier::external_body]
pub(crate) fn new_response() -> (r: Response)
    ensures
        attributes_of(r) == Seq::<(Seq<char>, Seq<char>)>::empty(),
{
    Response::new()
}

/// Relies on `cosmwasm_std::Response::add_attribute`: the pair is appended
/// after the attributes already there. Debug builds panic on a key that
/// starts with an underscore, which such keys are reserved for.
#[verifier::external_body]
pub(crate) fn add_attribute(r: Response, key: &str, value: String) -> (s: Response)
    requires
        key@.len() == 0 || key@[0] != '_',
    ensures
        attributes_of(s) == attributes_of(r).push((key@, value@)),
{
    r.add_attribute(key, value)
}

/// Relies on `cosmwasm_std::Binary::from(Vec<u8>)`: the binary holds the
/// bytes given.
#[verifier::external_body]
pub(crate) fn binary_from(v: Vec<u8>) -> (b: Binary)
    ensures
        bytes_of(b) == v@,
{
    Binary::from(v)
}

/// Relies on `to_vec` of the byte slice that `cosmwasm_std::Binary` derefs
/// to: a copy of the bytes held.
#[verifier::external_body]
pub(crate) fn binary_to_vec(b: &Binary) -> (v: Vec<u8>)
    ensures
        v@ == bytes_of(*b),
{
    b.to_vec()
}

/// Relies on `String::from_utf8`: it succeeds exactly on valid UTF-8, and the
/// text depends on the bytes alone.
#[verifier::external_body]
pub(crate) fn decode_utf8(bytes: Vec<u8>) -> (r: Option<String>)
    ensures
        match r {
            Some(s) => utf8_decoding(bytes@) == Some(s@),
            None => utf8_decoding(bytes@) is None,
        },
{
    String::from_utf8(bytes).ok()
}

} // verus!
