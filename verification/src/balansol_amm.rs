//! The quoting engine over one pool.

use vstd::prelude::*;
use crate::constant::PRECISION_U64;
use crate::errors::ErrorCode;
use crate::math::oracle::{
    calc_return_amount, lemma_return_amount_bounded, lemma_return_amount_monotonic,
    return_amount_spec, tax_amount_spec, total_weight,
};
use crate::pubkey::{lemma_first_index_absent, lemma_first_index_some, Pubkey};
use crate::schema::pool::{Pool, PoolView};
use crate::schema::terms::SwapTerms;

verus! {

/// A request for a quote: `in_amount` of `input_mint` is offered for
/// `output_mint`.
#[derive(Clone, Copy, Debug, PartialEq, Eq)]
pub struct QuoteParams {
    pub in_amount: u64,
    pub input_mint: Pubkey,
    pub output_mint: Pubkey,
}

/// An answer to a quote request. Fee and tax are charged in the asset
/// `fee_mint`, which is the asset handed out.
#[derive(Clone, Copy, Debug, PartialEq, Eq)]
pub struct Quote {
    pub in_amount: u64,
    pub out_amount: u64,
    pub fee_mint: Pubkey,
}

impl PoolView {
    /// The terms on which a quote request is priced: the pool's own fee goes
    /// into the pricing formula.
    pub open spec fn quote_terms(self, params: QuoteParams) -> Result<SwapTerms, ErrorCode> {
        self.swap_terms(params.in_amount, params.input_mint, params.output_mint, self.fee)
    }

    /// The quote for `params` once the pricing formula has answered
    /// `priced`. The tax is a share of the priced amount and is taken off
    /// it; lifecycle states play no part in quoting.
    pub open spec fn quote(self, params: QuoteParams, priced: Option<u64>) -> Result<
        Quote,
        ErrorCode,
    > {
        match (self.quote_terms(params), priced) {
            (Err(e), _) => Err(e),
            (Ok(_), None) => Err(ErrorCode::InvalidInvariant),
            (Ok(_), Some(ask_amount)) => match return_amount_spec(ask_amount, self.tax) {
                Err(e) => Err(e),
                Ok(return_amount) => Ok(
                    Quote {
                        in_amount: params.in_amount,
                        out_amount: return_amount,
                        fee_mint: params.output_mint,
                    },
                ),
            },
        }
    }
}

/// The terms of a request exist exactly when both assets are listed, the
/// weights sum to a positive number that fits 64 bits, the asset asked for
/// has a positive weight, and the bid and the bid reserve are not both zero.
pub proof fn lemma_quote_terms_owed(pool: PoolView, params: QuoteParams)
    ensures
        pool.quote_terms(params) is Ok <==> {
            &&& pool.mints.contains(params.input_mint)
            &&& pool.mints.contains(params.output_mint)
            &&& 0 < total_weight(pool.weights) <= u64::MAX
            &&& pool.mint_index(params.input_mint).unwrap() < pool.weights.len()
            &&& pool.mint_index(params.output_mint).unwrap() < pool.weights.len()
            &&& pool.weights[pool.mint_index(params.output_mint).unwrap()] > 0
            &&& (pool.reserves[pool.mint_index(params.input_mint).unwrap()] > 0 || params.in_amount
                > 0)
        },
{
    if pool.mints.contains(params.input_mint) {
        lemma_first_index_some(pool.mints, params.input_mint);
    } else {
        lemma_first_index_absent(pool.mints, params.input_mint);
    }
    if pool.mints.contains(params.output_mint) {
        lemma_first_index_some(pool.mints, params.output_mint);
    } else {
        lemma_first_index_absent(pool.mints, params.output_mint);
    }
}

/// On a pool whose tax is at most one, a request that has terms and that
/// the pricing formula answers gets a quote: it repeats the bid, names the
/// asset handed out, and hands out the priced amount less the tax, never
/// more than was priced.
pub proof fn lemma_quote_succeeds(pool: PoolView, params: QuoteParams, ask_amount: u64)
    requires
        pool.tax <= PRECISION_U64,
        pool.quote_terms(params) is Ok,
    ensures
        pool.quote(params, Some(ask_amount)) is Ok,
        pool.quote(params, Some(ask_amount)).unwrap().in_amount == params.in_amount,
        pool.quote(params, Some(ask_amount)).unwrap().fee_mint == params.output_mint,
        pool.quote(params, Some(ask_amount)).unwrap().out_amount == ask_amount - tax_amount_spec(
            ask_amount,
            pool.tax,
        ),
        pool.quote(params, Some(ask_amount)).unwrap().out_amount <= ask_amount,
{
    lemma_return_amount_bounded(ask_amount, pool.tax);
}

/// A request that names an asset the pool does not list is refused with
/// `NotFound`, whatever the pricing formula answered.
pub proof fn lemma_quote_unlisted(pool: PoolView, params: QuoteParams, priced: Option<u64>)
    requires
        !pool.mints.contains(params.input_mint) || !pool.mints.contains(params.output_mint),
    ensures
        pool.quote(params, priced) == Err::<Quote, ErrorCode>(ErrorCode::NotFound),
{
    if !pool.mints.contains(params.input_mint) {
        lemma_first_index_absent(pool.mints, params.input_mint);
    }
    if !pool.mints.contains(params.output_mint) {
        lemma_first_index_absent(pool.mints, params.output_mint);
    }
}

/// A failed pricing is never quoted: it is reported as `InvalidInvariant`
/// wherever the request itself is in order.
pub proof fn lemma_quote_unpriced(pool: PoolView, params: QuoteParams)
    ensures
        pool.quote(params, None) is Err,
        pool.quote_terms(params) is Ok ==> pool.quote(params, None) == Err::<Quote, ErrorCode>(
            ErrorCode::InvalidInvariant,
        ),
{
}

/// For a fixed request on a pool whose tax is at most one, a larger priced
/// amount never yields a smaller quote, and a priced amount of zero yields a
/// quote of zero.
pub proof fn lemma_quote_monotonic(pool: PoolView, params: QuoteParams, smaller: u64, larger: u64)
    requires
        pool.tax <= PRECISION_U64,
        pool.quote_terms(params) is Ok,
        smaller <= larger,
    ensures
        pool.quote(params, Some(smaller)) is Ok,
        pool.quote(params, Some(larger)) is Ok,
        pool.quote(params, Some(smaller)).unwrap().out_amount <= pool.quote(
            params,
            Some(larger),
        ).unwrap().out_amount,
        pool.quote(params, Some(0)).unwrap().out_amount == 0,
{
    lemma_return_amount_monotonic(smaller, larger, pool.tax);
    lemma_return_amount_bounded(0, pool.tax);
}

/// The engine as a mathematical value.
pub struct BalansolAmmView {
    pub key: Pubkey,
    pub label: Seq<char>,
    pub program_id: Pubkey,
    pub pool: PoolView,
}

/// A quoting engine bound to the pool stored at the account `key`. The pool
/// it holds always has per-asset vectors of one length.
pub struct BalansolAmm {
    key: Pubkey,
    label: String,
    program_id: Pubkey,
    pool: Pool,
}

impl View for BalansolAmm {
    type V = BalansolAmmView;

    closed spec fn view(&self) -> BalansolAmmView {
        BalansolAmmView {
            key: self.key,
            label: self.label@,
            program_id: self.program_id,
            pool: self.pool@,
        }
    }
}

impl BalansolAmm {
    #[verifier::type_invariant]
    spec fn inv(self) -> bool {
        self.pool@.consistent()
    }

    /// Builds the engine for the pool stored at the account `key`, which
    /// the program `owner` owns.
    pub fn from_keyed_account(key: Pubkey, owner: Pubkey, pool: Pool) -> (amm: BalansolAmm)
        requires
            pool@.consistent(),
        ensures
            amm@ == (BalansolAmmView {
                key,
                label: "Balansol"@,
                program_id: owner,
                pool: pool@,
            }),
    {
        BalansolAmm { key, label: "Balansol".to_string(), program_id: owner, pool }
    }

    /// The engine's display name.
    pub fn label(&self) -> (label: String)
        ensures
            label@ == self@.label,
    {
        self.label.clone()
    }

    /// The account that stores the pool.
    pub fn key(&self) -> (key: Pubkey)
        ensures
            key == self@.key,
    {
        self.key
    }

    /// The program that owns the pool account.
    pub fn program_id(&self) -> (program_id: Pubkey)
        ensures
            program_id == self@.program_id,
    {
        self.program_id
    }

    /// The assets the pool trades, in pool order.
    pub fn get_reserve_mints(&self) -> (mints: Vec<Pubkey>)
        ensures
            mints@ == self@.pool.mints,
    {
        self.pool.mints.clone()
    }

    /// The accounts whose contents the engine must be refreshed from: the
    /// pool account alone.
    pub fn get_accounts_to_update(&self) -> (accounts: Vec<Pubkey>)
        ensures
            accounts@ == seq![self@.key],
    {
        vec![self.key]
    }

    /// Replaces the pool snapshot by a fresh one.
    pub fn update(&mut self, pool: Pool)
        requires
            pool@.consistent(),
        ensures
            final(self)@ == (BalansolAmmView { pool: pool@, ..old(self)@ }),
    {
        self.pool = pool;
    }

    /// The inputs of the pricing formula for `quote_params`.
    pub fn quote_terms(&self, quote_params: &QuoteParams) -> (r: Result<SwapTerms, ErrorCode>)
        ensures
            r == self@.pool.quote_terms(*quote_params),
    {
        proof {
            use_type_invariant(self);
        }
        self.pool.swap_terms(
            quote_params.in_amount,
            quote_params.input_mint,
            quote_params.output_mint,
            self.pool.fee,
        )
    }

    /// Answers `quote_params`, given the pricing formula's answer `priced`
    /// to the terms of `quote_terms`. The pool is not changed.
    pub fn quote(&self, quote_params: &QuoteParams, priced: Option<u64>) -> (r: Result<
        Quote,
        ErrorCode,
    >)
        ensures
            r == self@.pool.quote(*quote_params, priced),
    {
        if let Err(e) = self.quote_terms(quote_params) {
            return Err(e);
        }
        let ask_amount = match priced {
            Some(amount) => amount,
            None => {
                return Err(ErrorCode::InvalidInvariant);
            },
        };
        match calc_return_amount(ask_amount, self.pool.tax) {
            Err(e) => Err(e),
            Ok(return_amount) => Ok(
                Quote {
                    in_amount: quote_params.in_amount,
                    out_amount: return_amount,
                    fee_mint: quote_params.output_mint,
                },
            ),
        }
    }

    /// Answers `quote_params` with `price` as the pricing formula: the terms
    /// of the request are handed to `price`, and its answer is quoted. Where
    /// the request has no terms, `price` is not asked.
    pub fn quote_with<F: Fn(SwapTerms) -> Option<u64>>(
        &self,
        quote_params: &QuoteParams,
        price: F,
    ) -> (r: Result<Quote, ErrorCode>)
        requires
            forall|terms: SwapTerms| call_requires(price, (terms,)),
        ensures
            match self@.pool.quote_terms(*quote_params) {
                Err(e) => r == Err::<Quote, ErrorCode>(e),
                Ok(terms) => exists|priced: Option<u64>|
                    #[trigger] call_ensures(price, (terms,), priced) && r == self@.pool.quote(
                        *quote_params,
                        priced,
                    ),
            },
    {
        let priced = match self.quote_terms(quote_params) {
            Ok(terms) => price(terms),
            Err(_) => None,
        };
        self.quote(quote_params, priced)
    }
}

impl Clone for BalansolAmm {
    fn clone(&self) -> (amm: BalansolAmm)
        ensures
            amm@ == self@,
    {
        proof {
            use_type_invariant(self);
        }
        BalansolAmm {
            key: self.key,
            label: self.label.clone(),
            program_id: self.program_id,
            pool: self.pool.clone(),
        }
    }
}

} // verus!
