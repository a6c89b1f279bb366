//! The operations a pool offers, stated over the pool's mathematical view.

use vstd::prelude::*;
use crate::math::oracle::{normalize_weight_spec, NormalizedWeight};
use crate::pubkey::Pubkey;
use crate::schema::pool::{MintActionState, PoolState, PoolView};

verus! {

/// Lifecycle and trading-state queries.
pub trait Operation: View<V = PoolView> {
    /// Whether trading is halted.
    fn is_frozen(&self) -> (r: bool)
        ensures
            r == (self@.state == PoolState::Frozen),
    ;

    /// Whether the pool is still being set up.
    fn is_initializing(&self) -> (r: bool)
        ensures
            r == (self@.state == PoolState::Initializing),
    ;

    /// Whether the pool is open for trading.
    fn is_active(&self) -> (r: bool)
        ensures
            r == (self@.state == PoolState::Initialized),
    ;

    /// Whether the trading state of the asset at `idx` is one of
    /// `mint_states`.
    fn valid_mint_states(&self, idx: usize, mint_states: Vec<MintActionState>) -> (r: bool)
        requires
            idx < self@.actions.len(),
        ensures
            r == mint_states@.contains(self@.actions[idx as int]),
    ;

    /// Whether the pool's lifecycle state is one of `pool_states`.
    fn valid_pool_states(&self, pool_states: Vec<PoolState>) -> (r: bool)
        ensures
            r == pool_states@.contains(self@.state),
    ;
}

/// Reserve bookkeeping and lookups by address.
pub trait Accessor: View<V = PoolView> {
    /// Adds `new_reserve` to the reserve at `idx`, or leaves the pool
    /// untouched when the sum does not fit 64 bits.
    fn add_reserve(&mut self, idx: usize, new_reserve: u64) -> (r: Option<u64>)
        requires
            idx < old(self)@.reserves.len(),
        ensures
            match old(self)@.add_reserve(idx as int, new_reserve) {
                Some(pool) => final(self)@ == pool && r == Some(pool.reserves[idx as int]),
                None => final(self)@ == old(self)@ && r is None,
            },
    ;

    /// Takes `new_reserve` off the reserve at `idx`, or leaves the pool
    /// untouched when the reserve is smaller than that.
    fn sub_reserve(&mut self, idx: usize, new_reserve: u64) -> (r: Option<u64>)
        requires
            idx < old(self)@.reserves.len(),
        ensures
            match old(self)@.sub_reserve(idx as int, new_reserve) {
                Some(pool) => final(self)@ == pool && r == Some(pool.reserves[idx as int]),
                None => final(self)@ == old(self)@ && r is None,
            },
    ;

    /// Position of the first asset whose address is `mint`.
    fn get_mint_index(&self, mint: Pubkey) -> (r: Option<usize>)
        ensures
            match r {
                Some(idx) => self@.mint_index(mint) == Some(idx as int),
                None => self@.mint_index(mint) is None,
            },
    ;

    /// Position of the first treasury whose address is `treasury`.
    fn get_treasury_index(&self, treasury: Pubkey) -> (r: Option<usize>)
        requires
            self@.consistent(),
        ensures
            match r {
                Some(idx) => self@.treasury_index(treasury) == Some(idx as int),
                None => self@.treasury_index(treasury) is None,
            },
    ;

    /// The exact normalized weight of the asset `mint`.
    fn get_normalized_weight(&self, mint: Pubkey) -> (r: Option<NormalizedWeight>)
        ensures
            r == match self@.mint_index(mint) {
                Some(idx) => normalize_weight_spec(idx, self@.weights),
                None => None,
            },
    ;

    /// The reserve of the asset `mint`.
    fn get_reserve(&self, mint: Pubkey) -> (r: Option<u64>)
        requires
            self@.consistent(),
        ensures
            r == match self@.mint_index(mint) {
                Some(idx) => Some(self@.reserves[idx]),
                None => None,
            },
    ;
}

} // verus!
