//! Payment references: the bytes that a depositor attaches to a deposit, kept
//! in the contract SDK's own byte string.

use soroban_sdk::Bytes;
use vstd::prelude::*;

verus! {

/// The longest payment reference that a deposit may carry, in bytes.
pub const MAX_REFERENCE_LEN: u32 = 64;

/// The byte string of the contract SDK, a handle on an immutable host object.
#[verifier::external_type_specification]
#[verifier::external_body]
pub struct ExBytes(soroban_sdk::Bytes);

/// The bytes that a byte string of the contract SDK holds.
pub uninterp spec fn bytes_contents(bytes: Bytes) -> Seq<u8>;

/// `soroban_sdk::Bytes::len`: the number of bytes that the byte string holds.
#[verifier::external_body]
fn bytes_len(bytes: &Bytes) -> (len: u32)
    ensures
        len == bytes_contents(*bytes).len(),
{
    bytes.len()
}

/// Whether a payment reference is short enough to be stored on a receipt.
pub fn reference_fits(reference: &Bytes) -> (fits: bool)
    ensures
        fits == (bytes_contents(*reference).len() <= MAX_REFERENCE_LEN),
{
    bytes_len(reference) <= MAX_REFERENCE_LEN
}

} // verus!
