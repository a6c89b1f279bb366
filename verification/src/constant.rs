//! Fixed parameters of the pool program.

use vstd::prelude::*;

verus! {

/// Largest number of assets a pool may hold.
pub const MAXIMUM_MINT_NUMBER: usize = 8;

/// Scale of the fixed-point fractions `fee` and `tax`: a stored value `x`
/// stands for the fraction `x / PRECISION`.
pub const PRECISION_U64: u64 = 1000000000u64;

/// `PRECISION_U64` as a 128-bit value, for products that do not fit 64 bits.
pub const PRECISION_U128: u128 = 1000000000u128;

/// Decimals of the liquidity-provider token.
pub const MINT_LPT_DECIMALS: u8 = 9;

} // verus!
