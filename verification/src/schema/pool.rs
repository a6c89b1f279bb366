//! The pool: its data, its mathematical view and its invariant.

use vstd::prelude::*;
use crate::constant::{MAXIMUM_MINT_NUMBER, PRECISION_U64};
use crate::math::oracle::{
    lemma_total_weight_prefix, normalize_weight, total_weight, NormalizedWeight,
};
use crate::pubkey::{first_index, lemma_first_index_absent, lemma_first_index_found, Pubkey};
use crate::schema::pool_trait::{Accessor, Operation};

verus! {

/// Lifecycle of a pool.
#[derive(Clone, Copy, Debug, PartialEq, Eq, Structural)]
pub enum PoolState {
    Uninitialized,
    Initialized,
    Frozen,
    Deleted,
    Initializing,
}

impl Default for PoolState {
    fn default() -> (state: PoolState)
        ensures
            state == PoolState::Uninitialized,
    {
        PoolState::Uninitialized
    }
}

/// Trading state of one asset of a pool.
#[derive(Clone, Copy, Debug, PartialEq, Eq, Structural)]
pub enum MintActionState {
    Active,
    BidOnly,
    AskOnly,
    Paused,
}

impl Default for MintActionState {
    fn default() -> (state: MintActionState)
        ensures
            state == MintActionState::Active,
    {
        MintActionState::Active
    }
}

/// The states an operation accepts: it may go ahead when the asset's
/// trading state is among `mint_states` and the pool's lifecycle state is
/// among `pool_states`.
#[derive(Debug)]
pub struct PoolValidation {
    pub mint_states: Vec<MintActionState>,
    pub pool_states: Vec<PoolState>,
}

/// A pool of up to `MAXIMUM_MINT_NUMBER` assets. Position `i` of `mints`,
/// `actions`, `treasuries`, `reserves` and `weights` describes the same
/// asset.
#[derive(Debug, PartialEq, Eq)]
pub struct Pool {
    pub authority: Pubkey,
    pub fee: u64,
    pub tax: u64,
    pub state: PoolState,
    pub mint_lpt: Pubkey,
    pub taxman: Pubkey,
    pub mints: Vec<Pubkey>,
    pub actions: Vec<MintActionState>,
    pub treasuries: Vec<Pubkey>,
    pub reserves: Vec<u64>,
    pub weights: Vec<u64>,
}

/// The pool as a mathematical value.
pub struct PoolView {
    pub authority: Pubkey,
    pub fee: u64,
    pub tax: u64,
    pub state: PoolState,
    pub mint_lpt: Pubkey,
    pub taxman: Pubkey,
    pub mints: Seq<Pubkey>,
    pub actions: Seq<MintActionState>,
    pub treasuries: Seq<Pubkey>,
    pub reserves: Seq<u64>,
    pub weights: Seq<u64>,
}

impl View for Pool {
    type V = PoolView;

    open spec fn view(&self) -> PoolView {
        PoolView {
            authority: self.authority,
            fee: self.fee,
            tax: self.tax,
            state: self.state,
            mint_lpt: self.mint_lpt,
            taxman: self.taxman,
            mints: self.mints@,
            actions: self.actions@,
            treasuries: self.treasuries@,
            reserves: self.reserves@,
            weights: self.weights@,
        }
    }
}

impl PoolView {
    /// The five per-asset sequences have one length.
    pub open spec fn consistent(self) -> bool {
        &&& self.actions.len() == self.mints.len()
        &&& self.treasuries.len() == self.mints.len()
        &&& self.reserves.len() == self.mints.len()
        &&& self.weights.len() == self.mints.len()
    }

    /// No asset is listed twice.
    pub open spec fn mints_distinct(self) -> bool {
        forall|i: int, j: int|
            0 <= i < j < self.mints.len() ==> self.mints[i] != self.mints[j]
    }

    /// The invariant of a pool: parallel sequences of one length between 1
    /// and `MAXIMUM_MINT_NUMBER`, distinct assets, a positive weight sum,
    /// and fee and tax below one.
    pub open spec fn wf(self) -> bool {
        &&& self.consistent()
        &&& 1 <= self.mints.len() <= MAXIMUM_MINT_NUMBER
        &&& self.mints_distinct()
        &&& total_weight(self.weights) > 0
        &&& self.fee < PRECISION_U64
        &&& self.tax < PRECISION_U64
    }

    /// Position of the asset `mint`.
    pub open spec fn mint_index(self, mint: Pubkey) -> Option<int> {
        first_index(self.mints, mint)
    }

    /// Position of the treasury `treasury`.
    pub open spec fn treasury_index(self, treasury: Pubkey) -> Option<int> {
        first_index(self.treasuries, treasury)
    }

    /// The pool with the reserve at `idx` set to `balance`.
    pub open spec fn with_reserve(self, idx: int, balance: u64) -> PoolView {
        PoolView { reserves: self.reserves.update(idx, balance), ..self }
    }

    /// The pool after `amount` is added to the reserve at `idx`; `None` when
    /// the sum does not fit 64 bits.
    pub open spec fn add_reserve(self, idx: int, amount: u64) -> Option<PoolView> {
        if self.reserves[idx] + amount > u64::MAX {
            None
        } else {
            Some(self.with_reserve(idx, (self.reserves[idx] + amount) as u64))
        }
    }

    /// The pool after `amount` is taken off the reserve at `idx`; `None`
    /// when the reserve holds less than that.
    pub open spec fn sub_reserve(self, idx: int, amount: u64) -> Option<PoolView> {
        if amount > self.reserves[idx] {
            None
        } else {
            Some(self.with_reserve(idx, (self.reserves[idx] - amount) as u64))
        }
    }
}

/// Adding an amount to a reserve and then taking the same amount off it
/// gives back the pool as it was.
pub proof fn lemma_add_then_sub_reserve(pool: PoolView, idx: int, amount: u64)
    requires
        0 <= idx < pool.reserves.len(),
        pool.add_reserve(idx, amount) is Some,
    ensures
        pool.add_reserve(idx, amount).unwrap().sub_reserve(idx, amount) == Some(pool),
{
    let added = pool.add_reserve(idx, amount).unwrap();
    assert(added.reserves.update(idx, pool.reserves[idx]) =~= pool.reserves);
}

/// Taking an amount off a reserve and then adding the same amount to it
/// gives back the pool as it was.
pub proof fn lemma_sub_then_add_reserve(pool: PoolView, idx: int, amount: u64)
    requires
        0 <= idx < pool.reserves.len(),
        pool.sub_reserve(idx, amount) is Some,
    ensures
        pool.sub_reserve(idx, amount).unwrap().add_reserve(idx, amount) == Some(pool),
{
    let taken = pool.sub_reserve(idx, amount).unwrap();
    assert(taken.reserves.update(idx, pool.reserves[idx]) =~= pool.reserves);
}

/// Setting one reserve changes nothing that the pool's invariant speaks of.
pub proof fn lemma_with_reserve_keeps_wf(pool: PoolView, idx: int, balance: u64)
    requires
        0 <= idx < pool.reserves.len(),
    ensures
        pool.with_reserve(idx, balance).consistent() == pool.consistent(),
        pool.with_reserve(idx, balance).wf() == pool.wf(),
{
}

/// In a pool without duplicate assets, every asset is found at its own
/// position.
pub proof fn lemma_mint_index_of_listed(pool: PoolView, idx: int)
    requires
        pool.mints_distinct(),
        0 <= idx < pool.mints.len(),
    ensures
        pool.mint_index(pool.mints[idx]) == Some(idx),
{
    lemma_first_index_found(pool.mints, pool.mints[idx], idx);
}

impl Pool {
    /// Whether the five per-asset vectors have one length.
    pub fn is_consistent(&self) -> (r: bool)
        ensures
            r == self@.consistent(),
    {
        let n = self.mints.len();
        self.actions.len() == n && self.treasuries.len() == n && self.reserves.len() == n
            && self.weights.len() == n
    }

    /// Whether no asset is listed twice.
    pub fn has_distinct_mints(&self) -> (r: bool)
        ensures
            r == self@.mints_distinct(),
    {
        let n = self.mints.len();
        let mut i: usize = 0;
        while i < n
            invariant
                i <= n,
                n == self.mints.len(),
                forall|a: int, b: int| 0 <= a < b < n && a < i ==> self.mints[a] != self.mints[b],
            decreases n - i,
        {
            let mut j: usize = i + 1;
            while j < n
                invariant
                    i < j <= n,
                    n == self.mints.len(),
                    forall|b: int| i < b < j ==> self.mints[i as int] != self.mints[b],
                decreases n - j,
            {
                if self.mints[i] == self.mints[j] {
                    assert(self@.mints[i as int] == self@.mints[j as int]);
                    return false;
                }
                j += 1;
            }
            i += 1;
        }
        true
    }

    /// Whether some weight is positive, that is, whether the weights sum to
    /// more than zero.
    pub fn has_positive_weight(&self) -> (r: bool)
        ensures
            r == (total_weight(self@.weights) > 0),
    {
        let mut i: usize = 0;
        while i < self.weights.len()
            invariant
                i <= self.weights.len(),
                total_weight(self.weights@.take(i as int)) == 0,
            decreases self.weights.len() - i,
        {
            proof {
                assert(self.weights@.take(i + 1).drop_last() =~= self.weights@.take(i as int));
            }
            if self.weights[i] > 0 {
                proof {
                    lemma_total_weight_prefix(self.weights@, i + 1);
                }
                return true;
            }
            i += 1;
        }
        proof {
            assert(self.weights@.take(i as int) =~= self.weights@);
        }
        false
    }

    /// Whether the pool meets its invariant.
    pub fn is_well_formed(&self) -> (r: bool)
        ensures
            r == self@.wf(),
    {
        self.is_consistent() && 1 <= self.mints.len() && self.mints.len() <= MAXIMUM_MINT_NUMBER
            && self.has_distinct_mints() && self.has_positive_weight() && self.fee < PRECISION_U64
            && self.tax < PRECISION_U64
    }
}

impl Clone for Pool {
    fn clone(&self) -> (pool: Pool)
        ensures
            pool@ == self@,
    {
        Pool {
            authority: self.authority,
            fee: self.fee,
            tax: self.tax,
            state: self.state,
            mint_lpt: self.mint_lpt,
            taxman: self.taxman,
            mints: self.mints.clone(),
            actions: self.actions.clone(),
            treasuries: self.treasuries.clone(),
            reserves: self.reserves.clone(),
            weights: self.weights.clone(),
        }
    }
}

impl Operation for Pool {
    fn is_frozen(&self) -> (r: bool) {
        self.state == PoolState::Frozen
    }

    fn is_initializing(&self) -> (r: bool) {
        self.state == PoolState::Initializing
    }

    fn is_active(&self) -> (r: bool) {
        self.state == PoolState::Initialized
    }

    fn valid_mint_states(&self, mint_idx: usize, mint_states: Vec<MintActionState>) -> (r: bool) {
        let mut idx: usize = 0;
        while idx < mint_states.len()
            invariant
                idx <= mint_states.len(),
                mint_idx < self.actions.len(),
                forall|j: int| 0 <= j < idx ==> mint_states[j] != self.actions[mint_idx as int],
            decreases mint_states.len() - idx,
        {
            if self.actions[mint_idx] == mint_states[idx] {
                return true;
            }
            idx += 1;
        }
        false
    }

    fn valid_pool_states(&self, pool_states: Vec<PoolState>) -> (r: bool) {
        let mut idx: usize = 0;
        while idx < pool_states.len()
            invariant
                idx <= pool_states.len(),
                forall|j: int| 0 <= j < idx ==> pool_states[j] != self.state,
            decreases pool_states.len() - idx,
        {
            if self.state == pool_states[idx] {
                return true;
            }
            idx += 1;
        }
        false
    }
}

impl Accessor for Pool {
    fn add_reserve(&mut self, idx: usize, amount_in: u64) -> (r: Option<u64>) {
        let balance = self.reserves[idx].checked_add(amount_in)?;
        self.reserves[idx] = balance;
        Some(balance)
    }

    fn sub_reserve(&mut self, idx: usize, amount_out: u64) -> (r: Option<u64>) {
        let balance = self.reserves[idx].checked_sub(amount_out)?;
        self.reserves[idx] = balance;
        Some(balance)
    }

    fn get_mint_index(&self, mint: Pubkey) -> (r: Option<usize>) {
        let mut idx: usize = 0;
        while idx < self.mints.len()
            invariant
                idx <= self.mints.len(),
                forall|j: int| 0 <= j < idx ==> self.mints[j] != mint,
            decreases self.mints.len() - idx,
        {
            if self.mints[idx] == mint {
                proof {
                    lemma_first_index_found(self.mints@, mint, idx as int);
                }
                return Some(idx);
            }
            idx += 1;
        }
        proof {
            lemma_first_index_absent(self.mints@, mint);
        }
        None
    }

    fn get_treasury_index(&self, treasury: Pubkey) -> (r: Option<usize>) {
        let mut idx: usize = 0;
        while idx < self.mints.len()
            invariant
                idx <= self.mints.len(),
                self.treasuries.len() == self.mints.len(),
                forall|j: int| 0 <= j < idx ==> self.treasuries[j] != treasury,
            decreases self.mints.len() - idx,
        {
            if self.treasuries[idx] == treasury {
                proof {
                    lemma_first_index_found(self.treasuries@, treasury, idx as int);
                }
                return Some(idx);
            }
            idx += 1;
        }
        proof {
            lemma_first_index_absent(self.treasuries@, treasury);
        }
        None
    }

    fn get_normalized_weight(&self, mint: Pubkey) -> (r: Option<NormalizedWeight>) {
        let mint_idx = self.get_mint_index(mint)?;
        normalize_weight(mint_idx, self.weights.clone())
    }

    fn get_reserve(&self, mint: Pubkey) -> (r: Option<u64>) {
        let mint_idx = self.get_mint_index(mint)?;
        Some(self.reserves[mint_idx])
    }
}

} // verus!
