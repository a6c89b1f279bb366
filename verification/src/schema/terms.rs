//! What the pricing formula reads from a pool.

use vstd::prelude::*;
use crate::errors::ErrorCode;
use crate::math::oracle::{normalize_weight_spec, NormalizedWeight};
use crate::pubkey::Pubkey;
use crate::schema::pool::{Pool, PoolView};
use crate::schema::pool_trait::Accessor;

verus! {

/// The inputs of one pricing: the bid, both reserves, both normalized
/// weights and the fee fraction `fee / PRECISION`, all exact.
///
/// The formula they feed takes the fee off the bid first and prices what is
/// left: with `effective = bid_amount * (1 - fee / PRECISION)`, the ask
/// amount is `ask_reserve * (1 - (bid_reserve / (bid_reserve + effective))
/// ^ (bid_weight / ask_weight))`, rounded down. Tax is no part of it; it is
/// taken off the priced amount afterwards.
#[derive(Clone, Copy, Debug, PartialEq, Eq, Structural)]
pub struct SwapTerms {
    pub bid_amount: u64,
    pub bid_reserve: u64,
    pub bid_weight: NormalizedWeight,
    pub ask_reserve: u64,
    pub ask_weight: NormalizedWeight,
    pub fee: u64,
}

impl SwapTerms {
    /// Whether one of the formula's two divisors is zero whatever the fee:
    /// the ask weight, or the bid reserve together with the bid.
    pub open spec fn divides_by_zero(self) -> bool {
        self.ask_weight.weight == 0 || (self.bid_reserve == 0 && self.bid_amount == 0)
    }

    /// Tells whether the formula would divide by zero on these terms.
    pub fn has_zero_divisor(&self) -> (r: bool)
        ensures
            r == self.divides_by_zero(),
    {
        self.ask_weight.weight == 0 || (self.bid_reserve == 0 && self.bid_amount == 0)
    }
}

impl PoolView {
    /// The terms on which `bid_amount` of `bid_mint` trades for `ask_mint`:
    /// `NotFound` when either asset is missing, `InvalidInvariant` when the
    /// weights cannot be normalized or the formula would divide by zero.
    pub open spec fn swap_terms(
        self,
        bid_amount: u64,
        bid_mint: Pubkey,
        ask_mint: Pubkey,
        total_fee: u64,
    ) -> Result<SwapTerms, ErrorCode> {
        match (self.mint_index(bid_mint), self.mint_index(ask_mint)) {
            (Some(bid_idx), Some(ask_idx)) => match (
                normalize_weight_spec(bid_idx, self.weights),
                normalize_weight_spec(ask_idx, self.weights),
            ) {
                (Some(bid_weight), Some(ask_weight)) => {
                    let terms = SwapTerms {
                        bid_amount,
                        bid_reserve: self.reserves[bid_idx],
                        bid_weight,
                        ask_reserve: self.reserves[ask_idx],
                        ask_weight,
                        fee: total_fee,
                    };
                    if terms.divides_by_zero() {
                        Err(ErrorCode::InvalidInvariant)
                    } else {
                        Ok(terms)
                    }
                },
                _ => Err(ErrorCode::InvalidInvariant),
            },
            _ => Err(ErrorCode::NotFound),
        }
    }
}

impl Pool {
    /// Gathers the inputs of the pricing formula for a bid of `bid_amount`
    /// of `bid_mint` against `ask_mint`.
    pub fn swap_terms(
        &self,
        bid_amount: u64,
        bid_mint: Pubkey,
        ask_mint: Pubkey,
        total_fee: u64,
    ) -> (r: Result<SwapTerms, ErrorCode>)
        requires
            self@.consistent(),
        ensures
            r == self@.swap_terms(bid_amount, bid_mint, ask_mint, total_fee),
    {
        let bid_mint_idx = match self.get_mint_index(bid_mint) {
            Some(idx) => idx,
            None => {
                return Err(ErrorCode::NotFound);
            },
        };
        let ask_mint_idx = match self.get_mint_index(ask_mint) {
            Some(idx) => idx,
            None => {
                return Err(ErrorCode::NotFound);
            },
        };
        let bid_reserve = self.reserves[bid_mint_idx];
        let bid_weight = match self.get_normalized_weight(bid_mint) {
            Some(weight) => weight,
            None => {
                return Err(ErrorCode::InvalidInvariant);
            },
        };
        let ask_reserve = self.reserves[ask_mint_idx];
        let ask_weight = match self.get_normalized_weight(ask_mint) {
            Some(weight) => weight,
            None => {
                return Err(ErrorCode::InvalidInvariant);
            },
        };
        let terms = SwapTerms {
            bid_amount,
            bid_reserve,
            bid_weight,
            ask_reserve,
            ask_weight,
            fee: total_fee,
        };
        if terms.has_zero_divisor() {
            return Err(ErrorCode::InvalidInvariant);
        }
        Ok(terms)
    }
}

} // verus!
