//! Gated reserve mutation: the lifecycle check in front of the ledger.

use vstd::prelude::*;
use crate::errors::ErrorCode;
use crate::pubkey::Pubkey;
use crate::schema::pool::{
    lemma_add_then_sub_reserve, lemma_with_reserve_keeps_wf, MintActionState, Pool, PoolState,
    PoolValidation, PoolView,
};
use crate::schema::pool_trait::{Accessor, Operation};

verus! {

/// Which way a reserve moves.
#[derive(Clone, Copy, Debug, PartialEq, Eq, Structural)]
pub enum Direction {
    /// An amount enters the pool.
    Deposit,
    /// An amount leaves the pool.
    Withdrawal,
}

/// Whether an asset in trading state `action` accepts a move in `direction`.
pub open spec fn action_permits(action: MintActionState, direction: Direction) -> bool {
    match direction {
        Direction::Deposit => action == MintActionState::Active || action
            == MintActionState::BidOnly,
        Direction::Withdrawal => action == MintActionState::Active || action
            == MintActionState::AskOnly,
    }
}

impl PoolView {
    /// Whether the reserve at `idx` may move in `direction`: the pool is
    /// open for trading and the asset accepts that direction.
    pub open spec fn permits(self, idx: int, direction: Direction) -> bool {
        self.state == PoolState::Initialized && action_permits(self.actions[idx], direction)
    }

    /// The position shared by the asset `mint` and the treasury `treasury`.
    pub open spec fn asset_index(self, mint: Pubkey, treasury: Pubkey) -> Result<int, ErrorCode> {
        match (self.mint_index(mint), self.treasury_index(treasury)) {
            (Some(mint_idx), Some(treasury_idx)) => if mint_idx == treasury_idx {
                Ok(mint_idx)
            } else {
                Err(ErrorCode::IndexMismatch)
            },
            _ => Err(ErrorCode::NotFound),
        }
    }

    /// The pool after `amount` has moved in `direction` at `idx`, or the
    /// reason why it may not. An index outside the pool comes first, then
    /// the lifecycle check, then the arithmetic.
    pub open spec fn mutate_reserve(self, idx: int, amount: u64, direction: Direction) -> Result<
        PoolView,
        ErrorCode,
    > {
        if !(0 <= idx < self.mints.len()) {
            Err(ErrorCode::NotFound)
        } else if !self.permits(idx, direction) {
            Err(ErrorCode::StateRejected)
        } else {
            match direction {
                Direction::Deposit => match self.add_reserve(idx, amount) {
                    Some(pool) => Ok(pool),
                    None => Err(ErrorCode::ArithmeticOverflow),
                },
                Direction::Withdrawal => match self.sub_reserve(idx, amount) {
                    Some(pool) => Ok(pool),
                    None => Err(ErrorCode::ArithmeticUnderflow),
                },
            }
        }
    }
}

/// Whatever the amount and the direction, moving the reserve of a paused
/// asset is refused with `StateRejected`, and so is any move in a pool that
/// is not open for trading.
pub proof fn lemma_mutation_rejected_by_state(
    pool: PoolView,
    idx: int,
    amount: u64,
    direction: Direction,
)
    requires
        0 <= idx < pool.mints.len(),
        pool.actions[idx] == MintActionState::Paused || pool.state != PoolState::Initialized,
    ensures
        pool.mutate_reserve(idx, amount, direction) == Err::<PoolView, ErrorCode>(
            ErrorCode::StateRejected,
        ),
{
}

/// Where the states permit it, a withdrawal of more than the reserve holds
/// fails with `ArithmeticUnderflow`, and a deposit that would take the
/// reserve above `u64::MAX` fails with `ArithmeticOverflow`; every other
/// permitted move succeeds.
pub proof fn lemma_mutation_arithmetic(pool: PoolView, idx: int, amount: u64, direction: Direction)
    requires
        0 <= idx < pool.mints.len(),
        pool.permits(idx, direction),
    ensures
        direction == Direction::Withdrawal ==> (amount > pool.reserves[idx] <==> pool.mutate_reserve(
            idx,
            amount,
            direction,
        ) == Err::<PoolView, ErrorCode>(ErrorCode::ArithmeticUnderflow)),
        direction == Direction::Deposit ==> (pool.reserves[idx] + amount > u64::MAX
            <==> pool.mutate_reserve(idx, amount, direction) == Err::<PoolView, ErrorCode>(
            ErrorCode::ArithmeticOverflow,
        )),
        pool.mutate_reserve(idx, amount, direction) is Ok <==> match direction {
            Direction::Deposit => pool.reserves[idx] + amount <= u64::MAX,
            Direction::Withdrawal => amount <= pool.reserves[idx],
        },
{
}

/// A deposit followed by a withdrawal of the same amount at the same
/// position gives back the pool as it was, provided the asset is active and
/// the deposit did not overflow.
pub proof fn lemma_deposit_then_withdrawal(pool: PoolView, idx: int, amount: u64)
    requires
        pool.consistent(),
        0 <= idx < pool.mints.len(),
        pool.state == PoolState::Initialized,
        pool.actions[idx] == MintActionState::Active,
        pool.reserves[idx] + amount <= u64::MAX,
    ensures
        pool.mutate_reserve(idx, amount, Direction::Deposit) is Ok,
        pool.mutate_reserve(idx, amount, Direction::Deposit).unwrap().mutate_reserve(
            idx,
            amount,
            Direction::Withdrawal,
        ) == Ok::<PoolView, ErrorCode>(pool),
{
    lemma_add_then_sub_reserve(pool, idx, amount);
}

/// A move that succeeds keeps the pool's invariant, and leaves everything
/// but the one reserve as it was.
pub proof fn lemma_mutation_keeps_wf(pool: PoolView, idx: int, amount: u64, direction: Direction)
    requires
        pool.consistent(),
        pool.mutate_reserve(idx, amount, direction) is Ok,
    ensures
        pool.mutate_reserve(idx, amount, direction).unwrap().consistent(),
        pool.mutate_reserve(idx, amount, direction).unwrap().wf() == pool.wf(),
        exists|balance: u64|
            pool.mutate_reserve(idx, amount, direction).unwrap() == #[trigger] pool.with_reserve(
                idx,
                balance,
            ),
{
    let after = pool.mutate_reserve(idx, amount, direction).unwrap();
    assert(after == pool.with_reserve(idx, after.reserves[idx]));
    lemma_with_reserve_keeps_wf(pool, idx, after.reserves[idx]);
}

impl PoolValidation {
    /// The states in which an asset may receive a deposit.
    pub fn deposit() -> (validation: PoolValidation)
        ensures
            validation.mint_states@ == seq![MintActionState::Active, MintActionState::BidOnly],
            validation.pool_states@ == seq![PoolState::Initialized],
    {
        PoolValidation {
            mint_states: vec![MintActionState::Active, MintActionState::BidOnly],
            pool_states: vec![PoolState::Initialized],
        }
    }

    /// The states in which an asset may be withdrawn.
    pub fn withdrawal() -> (validation: PoolValidation)
        ensures
            validation.mint_states@ == seq![MintActionState::Active, MintActionState::AskOnly],
            validation.pool_states@ == seq![PoolState::Initialized],
    {
        PoolValidation {
            mint_states: vec![MintActionState::Active, MintActionState::AskOnly],
            pool_states: vec![PoolState::Initialized],
        }
    }

    /// The states that `direction` asks for.
    pub fn for_direction(direction: Direction) -> (validation: PoolValidation)
        ensures
            forall|action: MintActionState|
                validation.mint_states@.contains(action) <==> action_permits(action, direction),
            forall|state: PoolState|
                validation.pool_states@.contains(state) <==> state == PoolState::Initialized,
    {
        let validation = match direction {
            Direction::Deposit => PoolValidation::deposit(),
            Direction::Withdrawal => PoolValidation::withdrawal(),
        };
        proof {
            assert(validation.pool_states@[0] == PoolState::Initialized);
            assert(validation.mint_states@[0] == MintActionState::Active);
            assert(direction == Direction::Deposit ==> validation.mint_states@[1]
                == MintActionState::BidOnly);
            assert(direction == Direction::Withdrawal ==> validation.mint_states@[1]
                == MintActionState::AskOnly);
        }
        validation
    }
}

impl Pool {
    /// Whether the pool's lifecycle state and the trading state of the asset
    /// at `idx` are both among those that `validation` accepts.
    pub fn validate(&self, idx: usize, validation: PoolValidation) -> (r: bool)
        requires
            idx < self@.actions.len(),
        ensures
            r == (validation.pool_states@.contains(self@.state)
                && validation.mint_states@.contains(self@.actions[idx as int])),
    {
        let PoolValidation { mint_states, pool_states } = validation;
        self.valid_pool_states(pool_states) && self.valid_mint_states(idx, mint_states)
    }

    /// Resolves an asset and its treasury to their common position.
    pub fn get_asset_index(&self, mint: Pubkey, treasury: Pubkey) -> (r: Result<usize, ErrorCode>)
        requires
            self@.consistent(),
        ensures
            match r {
                Ok(idx) => self@.asset_index(mint, treasury) == Ok::<int, ErrorCode>(idx as int),
                Err(e) => self@.asset_index(mint, treasury) == Err::<int, ErrorCode>(e),
            },
    {
        let mint_idx = match self.get_mint_index(mint) {
            Some(idx) => idx,
            None => {
                return Err(ErrorCode::NotFound);
            },
        };
        let treasury_idx = match self.get_treasury_index(treasury) {
            Some(idx) => idx,
            None => {
                return Err(ErrorCode::NotFound);
            },
        };
        if mint_idx != treasury_idx {
            return Err(ErrorCode::IndexMismatch);
        }
        Ok(mint_idx)
    }

    /// Moves `amount` in `direction` at the reserve `idx` once the lifecycle
    /// check has passed, and returns the new balance. On any failure the
    /// pool is left as it was.
    pub fn mutate_reserve(&mut self, idx: usize, amount: u64, direction: Direction) -> (r: Result<
        u64,
        ErrorCode,
    >)
        requires
            old(self)@.consistent(),
        ensures
            match old(self)@.mutate_reserve(idx as int, amount, direction) {
                Ok(pool) => final(self)@ == pool && r == Ok::<u64, ErrorCode>(
                    pool.reserves[idx as int],
                ),
                Err(e) => final(self)@ == old(self)@ && r == Err::<u64, ErrorCode>(e),
            },
    {
        if idx >= self.mints.len() {
            return Err(ErrorCode::NotFound);
        }
        if !self.validate(idx, PoolValidation::for_direction(direction)) {
            return Err(ErrorCode::StateRejected);
        }
        match direction {
            Direction::Deposit => match self.add_reserve(idx, amount) {
                Some(balance) => Ok(balance),
                None => Err(ErrorCode::ArithmeticOverflow),
            },
            Direction::Withdrawal => match self.sub_reserve(idx, amount) {
                Some(balance) => Ok(balance),
                None => Err(ErrorCode::ArithmeticUnderflow),
            },
        }
    }
}

} // verus!
