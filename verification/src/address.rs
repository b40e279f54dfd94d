//! The shape that an account address must have.

use vstd::prelude::*;
use vstd::std_specs::iter::IteratorSpec;
use vstd::utf8::encode_utf8;
use crate::error::ContractError;
use crate::keys::MAX_ADDRESS_LENGTH;
use crate::text::{char_is_alphanumeric, is_alphanumeric};

verus! {

broadcast use {vstd::string::group_string_axioms, vstd::slice::group_slice_axioms};

/// Every character of `s` is alphanumeric.
pub open spec fn all_alphanumeric(s: Seq<char>) -> bool {
    forall|i: int| 0 <= i < s.len() ==> is_alphanumeric(#[trigger] s[i])
}

/// An address is well shaped when its UTF-8 encoding has at most
/// [`MAX_ADDRESS_LENGTH`] bytes and each of its characters is alphanumeric.
pub open spec fn valid_ica_address(address: Seq<char>) -> bool {
    &&& encode_utf8(address).len() <= MAX_ADDRESS_LENGTH
    &&& all_alphanumeric(address)
}

/// Whether every character of `s` is alphanumeric.
pub fn is_all_alphanumeric(s: &str) -> (r: bool)
    ensures
        r == all_alphanumeric(s@),
{
    let ghost mut seen: Seq<char> = Seq::empty();
    let mut it = s.chars();
    loop
        invariant
            it.obeys_prophetic_iter_laws(),
            seen + it.remaining() == s@,
            all_alphanumeric(seen),
        ensures
            all_alphanumeric(s@),
        decreases s@.len() - seen.len(),
    {
        match it.next() {
            Some(c) => {
                if !char_is_alphanumeric(c) {
                    assert(s@[seen.len() as int] == c);
                    return false;
                }
                proof {
                    seen = seen.push(c);
                }
            },
            None => {
                break;
            },
        }
    }
    true
}

/// The answer for an address, given the number of bytes of its encoding and
/// whether every one of its characters is alphanumeric.
pub fn check_address_shape(byte_length: usize, alphanumeric: bool) -> (r: Result<
    (),
    ContractError,
>)
    ensures
        r is Ok <==> byte_length <= MAX_ADDRESS_LENGTH && alphanumeric,
        r is Err ==> r == Err::<(), ContractError>(ContractError::InvalidAddress),
{
    if byte_length > MAX_ADDRESS_LENGTH || !alphanumeric {
        return Err(ContractError::InvalidAddress);
    }
    Ok(())
}

/// Checks the shape of an account address.
pub fn validate_ica_address(address: &str) -> (r: Result<(), ContractError>)
    ensures
        r is Ok <==> valid_ica_address(address@),
        r is Err ==> r == Err::<(), ContractError>(ContractError::InvalidAddress),
{
    let byte_length = address.as_bytes().len();
    let alphanumeric = byte_length <= MAX_ADDRESS_LENGTH && is_all_alphanumeric(address);
    check_address_shape(byte_length, alphanumeric)
}

} // verus!
