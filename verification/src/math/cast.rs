//! Width conversions between unsigned integers.

use vstd::prelude::*;

verus! {

/// Calls `num_traits::ToPrimitive::to_u128` on a `u64`. Every 64-bit value
/// fits 128 bits, so the call always yields `Some` of the same number.
#[verifier::external_body]
pub(crate) fn u64_to_u128(value: u64) -> (r: Option<u128>)
    ensures
        r == Some(value as u128),
{
    num_traits::ToPrimitive::to_u128(&value)
}

/// Calls `num_traits::ToPrimitive::to_u64` on a `u128`. The call yields
/// `Some` of the same number when it is at most `u64::MAX`, and `None`
/// otherwise.
#[verifier::external_body]
pub(crate) fn u128_to_u64(value: u128) -> (r: Option<u64>)
    ensures
        r == if value <= u64::MAX { Some(value as u64) } else { None::<u64> },
{
    num_traits::ToPrimitive::to_u64(&value)
}

} // verus!
