//! Settlement of a swap: both legs of the trade, or neither.

use vstd::prelude::*;
use crate::errors::ErrorCode;
use crate::math::oracle::{calc_tax_amount, return_amount_spec, tax_amount_spec};
use crate::pubkey::Pubkey;
use crate::schema::ledger::Direction;
use crate::schema::pool::{lemma_add_then_sub_reserve, Pool, PoolValidation, PoolView};
use crate::schema::pool_trait::Accessor;
use crate::schema::terms::SwapTerms;

verus! {

/// The amounts of a settled swap.
#[derive(Clone, Copy, Debug, PartialEq, Eq, Structural)]
pub struct SwapReceipt {
    /// What entered the bid treasury.
    pub bid_amount: u64,
    /// What left the ask treasury: `return_amount + tax_amount`.
    pub ask_amount: u64,
    /// The part of the ask amount that goes to the trader.
    pub return_amount: u64,
    /// The part of the ask amount that goes to the tax collector.
    pub tax_amount: u64,
}

impl PoolView {
    /// The pool and the receipt after a swap whose ask amount was priced as
    /// `priced`, or the reason why the swap is refused. The checks come in
    /// this order: both assets with their treasuries, the lifecycle states,
    /// the terms of the pricing and its answer, the tax, the deposit, the
    /// withdrawal.
    pub open spec fn swap(
        self,
        bid_mint: Pubkey,
        src_treasury: Pubkey,
        ask_mint: Pubkey,
        dst_treasury: Pubkey,
        bid_amount: u64,
        priced: Option<u64>,
    ) -> Result<(PoolView, SwapReceipt), ErrorCode> {
        match (
            self.asset_index(bid_mint, src_treasury),
            self.asset_index(ask_mint, dst_treasury),
            priced,
        ) {
            (Err(e), _, _) => Err(e),
            (Ok(_), Err(e), _) => Err(e),
            (Ok(bid_idx), Ok(ask_idx), _) if !self.permits(bid_idx, Direction::Deposit)
                || !self.permits(ask_idx, Direction::Withdrawal) => Err(ErrorCode::StateRejected),
            (Ok(_), Ok(_), _) if self.swap_terms(bid_amount, bid_mint, ask_mint, self.fee)
                is Err => Err(ErrorCode::InvalidInvariant),
            (Ok(_), Ok(_), None) => Err(ErrorCode::InvalidInvariant),
            (Ok(bid_idx), Ok(ask_idx), Some(ask_amount)) => match (
                return_amount_spec(ask_amount, self.tax),
                self.add_reserve(bid_idx, bid_amount),
            ) {
                (Err(e), _) => Err(e),
                (Ok(_), None) => Err(ErrorCode::ArithmeticOverflow),
                (Ok(return_amount), Some(deposited)) => match deposited.sub_reserve(
                    ask_idx,
                    ask_amount,
                ) {
                    None => Err(ErrorCode::ArithmeticUnderflow),
                    Some(settled) => Ok(
                        (
                            settled,
                            SwapReceipt {
                                bid_amount,
                                ask_amount,
                                return_amount,
                                tax_amount: (ask_amount - return_amount) as u64,
                            },
                        ),
                    ),
                },
            },
        }
    }
}

/// How a swap leaves the pool and what it returns, given what the swap
/// comes to: on success the settled pool and the receipt, on failure the
/// pool as it was and the error.
pub open spec fn swapped(
    outcome: Result<(PoolView, SwapReceipt), ErrorCode>,
    before: PoolView,
    after: PoolView,
    returned: Result<SwapReceipt, ErrorCode>,
) -> bool {
    match outcome {
        Ok((settled, receipt)) => after == settled && returned == Ok::<SwapReceipt, ErrorCode>(
            receipt,
        ),
        Err(e) => after == before && returned == Err::<SwapReceipt, ErrorCode>(e),
    }
}

/// Settles a swap on `pool`: `bid_amount` of `bid_mint` enters
/// `src_treasury` and the priced ask amount of `ask_mint` leaves
/// `dst_treasury`, split between the trader and the tax collector. `priced`
/// is the answer of the pricing formula to the pool's terms for this bid at
/// the pool's fee, `None` when it has no quote. On any failure the pool is
/// left as it was.
pub fn swap(
    pool: &mut Pool,
    bid_mint: Pubkey,
    src_treasury: Pubkey,
    ask_mint: Pubkey,
    dst_treasury: Pubkey,
    bid_amount: u64,
    priced: Option<u64>,
) -> (r: Result<SwapReceipt, ErrorCode>)
    requires
        old(pool)@.consistent(),
    ensures
        swapped(
            old(pool)@.swap(bid_mint, src_treasury, ask_mint, dst_treasury, bid_amount, priced),
            old(pool)@,
            final(pool)@,
            r,
        ),
{
    let bid_idx = match pool.get_asset_index(bid_mint, src_treasury) {
        Ok(idx) => idx,
        Err(e) => {
            return Err(e);
        },
    };
    let ask_idx = match pool.get_asset_index(ask_mint, dst_treasury) {
        Ok(idx) => idx,
        Err(e) => {
            return Err(e);
        },
    };
    if !pool.validate(bid_idx, PoolValidation::for_direction(Direction::Deposit)) || !pool.validate(
        ask_idx,
        PoolValidation::for_direction(Direction::Withdrawal),
    ) {
        return Err(ErrorCode::StateRejected);
    }
    if pool.swap_terms(bid_amount, bid_mint, ask_mint, pool.fee).is_err() {
        return Err(ErrorCode::InvalidInvariant);
    }
    let ask_amount = match priced {
        Some(amount) => amount,
        None => {
            return Err(ErrorCode::InvalidInvariant);
        },
    };
    let tax_amount = match calc_tax_amount(ask_amount, pool.tax) {
        Some(amount) => amount,
        None => {
            return Err(ErrorCode::ArithmeticOverflow);
        },
    };
    let return_amount = match ask_amount.checked_sub(tax_amount) {
        Some(amount) => amount,
        None => {
            return Err(ErrorCode::ArithmeticUnderflow);
        },
    };
    if pool.add_reserve(bid_idx, bid_amount).is_none() {
        return Err(ErrorCode::ArithmeticOverflow);
    }
    if pool.sub_reserve(ask_idx, ask_amount).is_none() {
        // The deposit is taken back, so that a refused swap changes nothing.
        proof {
            lemma_add_then_sub_reserve(old(pool)@, bid_idx as int, bid_amount);
        }
        pool.sub_reserve(bid_idx, bid_amount);
        return Err(ErrorCode::ArithmeticUnderflow);
    }
    Ok(SwapReceipt { bid_amount, ask_amount, return_amount, tax_amount })
}

/// Settles a swap on `pool` with `price` as the pricing formula: the terms
/// of the bid at the pool's fee are handed to `price`, and the swap is
/// settled on its answer as `swap` does. Where the bid has no terms, `price`
/// is not asked.
pub fn swap_with<F: Fn(SwapTerms) -> Option<u64>>(
    pool: &mut Pool,
    bid_mint: Pubkey,
    src_treasury: Pubkey,
    ask_mint: Pubkey,
    dst_treasury: Pubkey,
    bid_amount: u64,
    price: F,
) -> (r: Result<SwapReceipt, ErrorCode>)
    requires
        old(pool)@.consistent(),
        forall|terms: SwapTerms| call_requires(price, (terms,)),
    ensures
        match old(pool)@.swap_terms(bid_amount, bid_mint, ask_mint, old(pool)@.fee) {
            Ok(terms) => exists|priced: Option<u64>|
                #[trigger] call_ensures(price, (terms,), priced) && swapped(
                    old(pool)@.swap(
                        bid_mint,
                        src_treasury,
                        ask_mint,
                        dst_treasury,
                        bid_amount,
                        priced,
                    ),
                    old(pool)@,
                    final(pool)@,
                    r,
                ),
            Err(_) => swapped(
                old(pool)@.swap(bid_mint, src_treasury, ask_mint, dst_treasury, bid_amount, None),
                old(pool)@,
                final(pool)@,
                r,
            ),
        },
{
    let priced = match pool.swap_terms(bid_amount, bid_mint, ask_mint, pool.fee) {
        Ok(terms) => price(terms),
        Err(_) => None,
    };
    swap(pool, bid_mint, src_treasury, ask_mint, dst_treasury, bid_amount, priced)
}

/// Whatever the amounts, a swap is refused with `StateRejected` when both
/// assets resolve but the pool is not open for trading, the bid asset takes
/// no deposit, or the ask asset gives no withdrawal; a paused asset on
/// either side is such a case.
pub proof fn lemma_swap_rejected_by_state(
    pool: PoolView,
    bid_mint: Pubkey,
    src_treasury: Pubkey,
    ask_mint: Pubkey,
    dst_treasury: Pubkey,
    bid_amount: u64,
    priced: Option<u64>,
)
    requires
        pool.asset_index(bid_mint, src_treasury) is Ok,
        pool.asset_index(ask_mint, dst_treasury) is Ok,
        !pool.permits(pool.asset_index(bid_mint, src_treasury).unwrap(), Direction::Deposit)
            || !pool.permits(
            pool.asset_index(ask_mint, dst_treasury).unwrap(),
            Direction::Withdrawal,
        ),
    ensures
        pool.swap(bid_mint, src_treasury, ask_mint, dst_treasury, bid_amount, priced) == Err::<
            (PoolView, SwapReceipt),
            ErrorCode,
        >(ErrorCode::StateRejected),
{
}

/// A settled swap between two different assets adds the bid to the bid
/// reserve, takes the whole ask amount off the ask reserve, splits the ask
/// amount between trader and tax collector without remainder, and changes
/// nothing else; the pool's invariant is kept.
pub proof fn lemma_swap_settled(
    pool: PoolView,
    bid_mint: Pubkey,
    src_treasury: Pubkey,
    ask_mint: Pubkey,
    dst_treasury: Pubkey,
    bid_amount: u64,
    priced: Option<u64>,
)
    requires
        pool.consistent(),
        pool.swap(bid_mint, src_treasury, ask_mint, dst_treasury, bid_amount, priced) is Ok,
    ensures
        ({
            let (settled, receipt) = pool.swap(
                bid_mint,
                src_treasury,
                ask_mint,
                dst_treasury,
                bid_amount,
                priced,
            ).unwrap();
            let bid_idx = pool.asset_index(bid_mint, src_treasury).unwrap();
            let ask_idx = pool.asset_index(ask_mint, dst_treasury).unwrap();
            &&& priced == Some(receipt.ask_amount)
            &&& receipt.bid_amount == bid_amount
            &&& receipt.return_amount + receipt.tax_amount == receipt.ask_amount
            &&& receipt.tax_amount == tax_amount_spec(receipt.ask_amount, pool.tax)
            &&& settled.consistent()
            &&& settled.wf() == pool.wf()
            &&& settled == (PoolView { reserves: settled.reserves, ..pool })
            &&& settled.reserves.len() == pool.reserves.len()
            &&& forall|i: int|
                0 <= i < pool.reserves.len() && i != bid_idx && i != ask_idx
                    ==> settled.reserves[i] == pool.reserves[i]
            &&& bid_idx != ask_idx ==> settled.reserves[bid_idx] == pool.reserves[bid_idx]
                + bid_amount && settled.reserves[ask_idx] == pool.reserves[ask_idx]
                - receipt.ask_amount
            &&& bid_idx == ask_idx ==> settled.reserves[bid_idx] == pool.reserves[bid_idx]
                + bid_amount - receipt.ask_amount
        }),
{
    let bid_idx = pool.asset_index(bid_mint, src_treasury).unwrap();
    let ask_idx = pool.asset_index(ask_mint, dst_treasury).unwrap();
    let deposited = pool.add_reserve(bid_idx, bid_amount).unwrap();
}

} // verus!
