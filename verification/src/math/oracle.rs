//! Weight normalization and the integer side of fee and tax composition.

use vstd::prelude::*;
use crate::constant::{PRECISION_U128, PRECISION_U64};
use crate::errors::ErrorCode;
use crate::math::cast::{u128_to_u64, u64_to_u128};

verus! {

/// Sum of all raw weights, as a mathematical number.
pub open spec fn total_weight(weights: Seq<u64>) -> nat
    decreases weights.len(),
{
    if weights.len() == 0 {
        0
    } else {
        total_weight(weights.drop_last()) + weights.last() as nat
    }
}

/// The sum over a prefix never exceeds the sum over the whole vector.
pub proof fn lemma_total_weight_prefix(weights: Seq<u64>, n: int)
    requires
        0 <= n <= weights.len(),
    ensures
        total_weight(weights.take(n)) <= total_weight(weights),
    decreases weights.len(),
{
    if n < weights.len() {
        lemma_total_weight_prefix(weights.drop_last(), n);
        assert(weights.drop_last().take(n) =~= weights.take(n));
    } else {
        assert(weights.take(n) =~= weights);
    }
}

/// One weight is never more than the sum of all of them.
pub proof fn lemma_weight_le_total(weights: Seq<u64>, i: int)
    requires
        0 <= i < weights.len(),
    ensures
        weights[i] <= total_weight(weights),
    decreases weights.len(),
{
    if i < weights.len() - 1 {
        lemma_weight_le_total(weights.drop_last(), i);
    }
}

/// A normalized weight, kept exact: the fraction `weight / total`.
#[derive(Clone, Copy, Debug, PartialEq, Eq, Structural)]
pub struct NormalizedWeight {
    /// The asset's raw weight.
    pub weight: u64,
    /// The sum of the raw weights of all assets; never zero.
    pub total: u64,
}

/// What `normalize_weight` returns: the fraction of the weight at
/// `weight_idx`, unless the index is out of bounds, the weights sum to zero,
/// or their sum does not fit 64 bits.
pub open spec fn normalize_weight_spec(weight_idx: int, weights: Seq<u64>) -> Option<
    NormalizedWeight,
> {
    if 0 <= weight_idx < weights.len() && 0 < total_weight(weights) <= u64::MAX {
        Some(
            NormalizedWeight {
                weight: weights[weight_idx],
                total: total_weight(weights) as u64,
            },
        )
    } else {
        None
    }
}

/// Normalizes the raw weight at `weight_idx` against the sum of all weights.
pub fn normalize_weight(weight_idx: usize, weights: Vec<u64>) -> (r: Option<NormalizedWeight>)
    ensures
        r == normalize_weight_spec(weight_idx as int, weights@),
        r matches Some(w) ==> w.weight <= w.total && w.total > 0,
{
    let mut total: u64 = 0;
    let mut i: usize = 0;
    while i < weights.len()
        invariant
            i <= weights.len(),
            total == total_weight(weights@.take(i as int)),
        decreases weights.len() - i,
    {
        proof {
            assert(weights@.take(i + 1).drop_last() =~= weights@.take(i as int));
        }
        match total.checked_add(weights[i]) {
            Some(sum) => {
                total = sum;
            },
            None => {
                proof {
                    lemma_total_weight_prefix(weights@, i + 1);
                }
                return None;
            },
        }
        i += 1;
    }
    proof {
        assert(weights@.take(i as int) =~= weights@);
    }
    if total == 0 || weight_idx >= weights.len() {
        return None;
    }
    proof {
        lemma_weight_le_total(weights@, weight_idx as int);
    }
    Some(NormalizedWeight { weight: weights[weight_idx], total })
}

/// Sum of the numerators of the normalized weights at the first `n`
/// positions.
pub open spec fn numerator_sum(weights: Seq<u64>, n: int) -> nat
    decreases n,
{
    if n <= 0 {
        0
    } else {
        numerator_sum(weights, n - 1) + match normalize_weight_spec(n - 1, weights) {
            Some(w) => w.weight as nat,
            None => 0,
        }
    }
}

/// Over a weight vector whose sum is positive and fits 64 bits, every
/// position has a normalized weight, all of them share the denominator
/// `total_weight`, and their numerators add up to that denominator: the
/// normalized weights sum to exactly one.
pub proof fn lemma_normalized_weights_sum_to_one(weights: Seq<u64>)
    requires
        0 < total_weight(weights) <= u64::MAX,
    ensures
        forall|i: int|
            0 <= i < weights.len() ==> (#[trigger] normalize_weight_spec(i, weights) matches Some(
                w,
            ) && w.total == total_weight(weights) && w.weight == weights[i]),
        numerator_sum(weights, weights.len() as int) == total_weight(weights),
{
    lemma_numerator_sum_prefix(weights, weights.len() as int);
    assert(weights.take(weights.len() as int) =~= weights);
}

/// The numerators over the first `n` positions add up to the sum of the
/// first `n` raw weights.
pub proof fn lemma_numerator_sum_prefix(weights: Seq<u64>, n: int)
    requires
        0 < total_weight(weights) <= u64::MAX,
        0 <= n <= weights.len(),
    ensures
        numerator_sum(weights, n) == total_weight(weights.take(n)),
    decreases n,
{
    if n > 0 {
        lemma_numerator_sum_prefix(weights, n - 1);
        assert(weights.take(n).drop_last() =~= weights.take(n - 1));
    }
}

/// The tax on an ask amount: `ask_amount * tax / PRECISION`, rounded down.
pub open spec fn tax_amount_spec(ask_amount: u64, tax: u64) -> nat {
    (ask_amount as nat * tax as nat) / (PRECISION_U64 as nat)
}

/// What is left of an ask amount once the tax is taken off, or the reason
/// why the deduction cannot be made.
pub open spec fn return_amount_spec(ask_amount: u64, tax: u64) -> Result<u64, ErrorCode> {
    let tax_amount = tax_amount_spec(ask_amount, tax);
    if tax_amount > u64::MAX {
        Err(ErrorCode::ArithmeticOverflow)
    } else if tax_amount > ask_amount {
        Err(ErrorCode::ArithmeticUnderflow)
    } else {
        Ok((ask_amount - tax_amount) as u64)
    }
}

/// Computes the tax on `ask_amount` in 128-bit arithmetic. `None` when the
/// tax does not fit 64 bits, which needs a tax rate above one.
pub fn calc_tax_amount(ask_amount: u64, tax: u64) -> (r: Option<u64>)
    ensures
        r == if tax_amount_spec(ask_amount, tax) <= u64::MAX {
            Some(tax_amount_spec(ask_amount, tax) as u64)
        } else {
            None::<u64>
        },
        tax <= PRECISION_U64 ==> r is Some && r->0 <= ask_amount,
{
    assert(ask_amount as nat * tax as nat <= u128::MAX) by (nonlinear_arith)
        requires
            ask_amount <= u64::MAX,
            tax <= u64::MAX,
    ;
    let product = u64_to_u128(ask_amount)?.checked_mul(u64_to_u128(tax)?)?;
    let tax_amount = product.checked_div(PRECISION_U128)?;
    proof {
        if tax <= PRECISION_U64 {
            assert(ask_amount as nat * tax as nat <= ask_amount as nat * 1000000000)
                by (nonlinear_arith)
                requires
                    tax <= 1000000000,
            ;
        }
    }
    u128_to_u64(tax_amount)
}

/// Takes the tax off `ask_amount`.
pub fn calc_return_amount(ask_amount: u64, tax: u64) -> (r: Result<u64, ErrorCode>)
    ensures
        r == return_amount_spec(ask_amount, tax),
        tax <= PRECISION_U64 ==> r is Ok,
{
    match calc_tax_amount(ask_amount, tax) {
        None => Err(ErrorCode::ArithmeticOverflow),
        Some(tax_amount) => match ask_amount.checked_sub(tax_amount) {
            None => Err(ErrorCode::ArithmeticUnderflow),
            Some(return_amount) => Ok(return_amount),
        },
    }
}

/// With a tax of at most one, the deduction succeeds and hands out no more
/// than the ask amount; with no tax it hands out all of it, and nothing of
/// nothing.
pub proof fn lemma_return_amount_bounded(ask_amount: u64, tax: u64)
    requires
        tax <= PRECISION_U64,
    ensures
        return_amount_spec(ask_amount, tax) is Ok,
        return_amount_spec(ask_amount, tax).unwrap() <= ask_amount,
        tax == 0 ==> return_amount_spec(ask_amount, tax).unwrap() == ask_amount,
        return_amount_spec(0, tax) == Ok::<u64, ErrorCode>(0),
{
    assert(ask_amount as nat * tax as nat <= ask_amount as nat * 1000000000) by (nonlinear_arith)
        requires
            tax <= 1000000000,
    ;
    assert(tax == 0 ==> ask_amount as nat * tax as nat == 0) by (nonlinear_arith);
    assert(0 * tax as nat == 0);
}

/// For a fixed tax of at most one, a larger ask amount never hands out
/// less.
pub proof fn lemma_return_amount_monotonic(smaller: u64, larger: u64, tax: u64)
    requires
        smaller <= larger,
        tax <= PRECISION_U64,
    ensures
        return_amount_spec(smaller, tax) is Ok,
        return_amount_spec(larger, tax) is Ok,
        return_amount_spec(smaller, tax).unwrap() <= return_amount_spec(larger, tax).unwrap(),
{
    lemma_return_amount_bounded(smaller, tax);
    lemma_return_amount_bounded(larger, tax);
    assert(larger as nat * tax as nat <= smaller as nat * tax as nat + (larger - smaller)
        * 1000000000) by (nonlinear_arith)
        requires
            smaller <= larger,
            tax <= 1000000000,
    ;
}

/// For a fixed ask amount, a higher tax never hands out more.
pub proof fn lemma_return_amount_falls_with_tax(ask_amount: u64, lower: u64, higher: u64)
    requires
        lower <= higher <= PRECISION_U64,
    ensures
        return_amount_spec(ask_amount, lower) is Ok,
        return_amount_spec(ask_amount, higher) is Ok,
        return_amount_spec(ask_amount, higher).unwrap() <= return_amount_spec(
            ask_amount,
            lower,
        ).unwrap(),
{
    lemma_return_amount_bounded(ask_amount, lower);
    lemma_return_amount_bounded(ask_amount, higher);
    assert(ask_amount as nat * lower as nat <= ask_amount as nat * higher as nat)
        by (nonlinear_arith)
        requires
            lower <= higher,
    ;
}

} // verus!
