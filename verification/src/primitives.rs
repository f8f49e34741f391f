//! Ethereum value types that the library carries through without looking inside.

use vstd::prelude::*;

verus! {

/// `alloy_primitives::FixedBytes`, a byte array of fixed length; block hashes
/// are the instance of length 32.
#[verifier::external_type_specification]
#[verifier::external_body]
pub struct ExFixedBytes<const N: usize>(alloy_primitives::FixedBytes<N>);

/// `alloy_primitives::Address`, the address of an account.
#[verifier::external_type_specification]
#[verifier::external_body]
pub struct ExAddress(alloy_primitives::Address);

/// `alloy_primitives::Bytes`, a byte string such as the code of a contract.
#[verifier::external_type_specification]
#[verifier::external_body]
pub struct ExBytes(alloy_primitives::Bytes);

/// `alloy_primitives::Uint`, an unsigned integer of fixed width; `U256` is the
/// instance of 256 bits.
#[verifier::external_type_specification]
#[verifier::external_body]
pub struct ExUint<const BITS: usize, const LIMBS: usize>(alloy_primitives::Uint<BITS, LIMBS>);

} // verus!
