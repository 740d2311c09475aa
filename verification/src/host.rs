//! The types and calls of `cosmwasm_std` that the rules work with.
//!
//! But for `is_reserved_key`, nothing in this module is proved: each contract
//! records what the source of `cosmwasm_std` shows of the item it is written
//! for.

use cosmwasm_std::{Addr, Response};
use vstd::prelude::*;
use vstd::string::StrSliceExecFns;

verus! {

/// `cosmwasm_std::Addr`, the text of an identity that the host accepted.
#[verifier::external_type_specification]
#[verifier::external_body]
pub struct ExAddr(cosmwasm_std::Addr);

/// `cosmwasm_std::Empty`, the message type of a plain `Response`.
#[verifier::external_type_specification]
#[verifier::external_body]
pub struct ExEmpty(cosmwasm_std::Empty);

/// `cosmwasm_std::Response`, what a command hands back to the host.
#[verifier::external_type_specification]
#[verifier::external_body]
#[verifier::reject_recursive_types(T)]
pub struct ExResponse<T>(cosmwasm_std::Response<T>);

/// `cosmwasm_std::StdError`, the host's own error.
#[verifier::external_type_specification]
#[verifier::external_body]
pub struct ExStdError(cosmwasm_std::StdError);

/// The characters that an `Addr` holds.
pub uninterp spec fn addr_text(addr: Addr) -> Seq<char>;

/// The attributes of a `Response`, each a key and a value, in the order in
/// which they were added.
pub uninterp spec fn response_attributes(response: Response) -> Seq<(Seq<char>, Seq<char>)>;

/// A key that `cosmwasm_std` keeps for itself: one that starts with an
/// underscore.
pub open spec fn reserved_key(key: Seq<char>) -> bool {
    key.len() > 0 && key[0] == '_'
}

/// Whether `key` is reserved.
pub fn is_reserved_key(key: &str) -> (reserved: bool)
    ensures
        reserved == reserved_key(key@),
{
    key.unicode_len() > 0 && key.get_char(0) == '_'
}

/// `Addr::as_str` hands out the string that the address wraps.
pub assume_specification<'a>[ cosmwasm_std::Addr::as_str ](addr: &'a Addr) -> (text: &'a str)
    ensures
        text@ == addr_text(*addr),
;

/// The derived `Clone` of `Addr` copies the wrapped string. The derived
/// `Clone` of `Config` and of `Poll` calls it.
pub assume_specification[ <cosmwasm_std::Addr as Clone>::clone ](addr: &Addr) -> (copy: Addr)
    ensures
        addr_text(copy) == addr_text(*addr),
;

/// `Response::new` gives the default response, which has no attributes.
#[verifier::external_body]
pub(crate) fn new_response() -> (response: Response)
    ensures
        response_attributes(response) == Seq::<(Seq<char>, Seq<char>)>::empty(),
{
    Response::new()
}

/// `Response::add_attribute` appends one attribute made of `key` and `value`
/// and leaves the earlier ones in place. Built with debug assertions it
/// panics on a key that starts with an underscore, so such a key is not
/// admitted.
#[verifier::external_body]
pub(crate) fn add_attribute(response: Response, key: &str, value: &str) -> (extended: Response)
    requires
        !reserved_key(key@),
    ensures
        response_attributes(extended) == response_attributes(response).push((key@, value@)),
{
    response.add_attribute(key, value)
}

} // verus!
