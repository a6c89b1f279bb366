use balansol::{
    BalansolAmm, ErrorCode, MintActionState, NormalizedWeight, Pool, PoolState, Pubkey, Quote,
    QuoteParams, SwapTerms,
};

fn key(tag: u8) -> Pubkey {
    Pubkey::new_from_array([tag; 32])
}

const USDC: u8 = 10;
const SNTR: u8 = 11;

fn pool(fee: u64, tax: u64) -> Pool {
    Pool {
        authority: key(1),
        fee,
        tax,
        state: PoolState::Initialized,
        mint_lpt: key(2),
        taxman: key(3),
        mints: vec![key(USDC), key(SNTR)],
        actions: vec![MintActionState::Active, MintActionState::Active],
        treasuries: vec![key(20), key(21)],
        reserves: vec![1_000_000_000, 1_000_000_000],
        weights: vec![1, 1],
    }
}

fn amm(pool: Pool) -> BalansolAmm {
    BalansolAmm::from_keyed_account(key(90), key(91), pool)
}

fn params(in_amount: u64) -> QuoteParams {
    QuoteParams { in_amount, input_mint: key(USDC), output_mint: key(SNTR) }
}

fn finite(x: f64) -> Option<f64> {
    if x.is_finite() {
        Some(x)
    } else {
        None
    }
}

fn ratio(x: f64, y: f64) -> Option<f64> {
    if y == 0.0 {
        None
    } else {
        finite(x / y)
    }
}

/// The pricing formula on the terms the engine hands out.
fn price(terms: &SwapTerms) -> Option<u64> {
    let fee = ratio(terms.fee as f64, 1_000_000_000.0)?;
    let bid_amount = finite(finite(1.0 - fee)? * terms.bid_amount as f64)?;
    let bid_reserve = terms.bid_reserve as f64;
    let bid_weight = ratio(terms.bid_weight.weight as f64, terms.bid_weight.total as f64)?;
    let ask_weight = ratio(terms.ask_weight.weight as f64, terms.ask_weight.total as f64)?;
    let balance_ratio = ratio(bid_reserve, finite(bid_reserve + bid_amount)?)?;
    let weight_ratio = ratio(bid_weight, ask_weight)?;
    let ask_amount = finite(finite(1.0 - finite(balance_ratio.powf(weight_ratio))?)? * terms.ask_reserve as f64)?;
    if ask_amount > -1.0 && ask_amount < 18_446_744_073_709_551_616.0 {
        Some(ask_amount as u64)
    } else {
        None
    }
}

fn quote(amm: &BalansolAmm, params: &QuoteParams) -> Result<Quote, ErrorCode> {
    amm.quote_with(params, |terms| price(&terms))
}

#[test]
fn terms_carry_reserves_weights_and_fee() {
    let mut pool = pool(2_500_000, 0);
    pool.reserves = vec![2_000_000_000, 500_000_000];
    pool.weights = vec![4, 1];
    let terms = amm(pool).quote_terms(&params(1_000_000)).unwrap();
    assert_eq!(
        terms,
        SwapTerms {
            bid_amount: 1_000_000,
            bid_reserve: 2_000_000_000,
            bid_weight: NormalizedWeight { weight: 4, total: 5 },
            ask_reserve: 500_000_000,
            ask_weight: NormalizedWeight { weight: 1, total: 5 },
            fee: 2_500_000,
        }
    );
    assert_eq!(price(&terms), Some(996_257));
}

#[test]
fn balanced_pool_without_fee() {
    let amm = amm(pool(0, 0));
    let quote = quote(&amm, &params(1_000_000)).unwrap();
    assert_eq!(quote, Quote { in_amount: 1_000_000, out_amount: 999_000, fee_mint: key(SNTR) });
    assert!(quote.out_amount < 1_000_000);
}

#[test]
fn balanced_pool_with_fee() {
    let free = quote(&amm(pool(0, 0)), &params(1_000_000)).unwrap();
    let charged = quote(&amm(pool(3_000_000, 0)), &params(1_000_000)).unwrap();
    assert_eq!(charged.out_amount, 996_006);
    assert!(charged.out_amount < free.out_amount);
}

#[test]
fn tax_comes_off_the_priced_amount() {
    let taxed = quote(&amm(pool(0, 1_000_000)), &params(1_000_000)).unwrap();
    assert_eq!(taxed.out_amount, 999_000 - 999);
    let both = quote(&amm(pool(3_000_000, 1_000_000)), &params(1_000_000)).unwrap();
    assert_eq!(both.out_amount, 996_006 - 996);
}

#[test]
fn zero_bid_yields_zero() {
    let quote = quote(&amm(pool(3_000_000, 1_000_000)), &params(0)).unwrap();
    assert_eq!(quote, Quote { in_amount: 0, out_amount: 0, fee_mint: key(SNTR) });
}

#[test]
fn quotes_grow_with_the_bid_and_stay_below_the_reserve() {
    let amm = amm(pool(3_000_000, 1_000_000));
    let mut last = 0;
    for bid in [0, 1, 10, 1_000, 1_000_000, 1_000_000_000, 1_000_000_000_000] {
        let out = quote(&amm, &params(bid)).unwrap().out_amount;
        assert!(out >= last);
        assert!(out < 1_000_000_000);
        last = out;
    }
}

#[test]
fn quotes_fall_as_the_fee_rises() {
    let mut last = u64::MAX;
    for fee in [0, 1, 3_000_000, 500_000_000, 999_999_999] {
        let out = quote(&amm(pool(fee, 0)), &params(1_000_000)).unwrap().out_amount;
        assert!(out <= last);
        last = out;
    }
}

#[test]
fn quoting_does_not_look_at_lifecycle_states() {
    let mut paused = pool(0, 0);
    paused.state = PoolState::Frozen;
    paused.actions = vec![MintActionState::Paused, MintActionState::Paused];
    assert_eq!(quote(&amm(paused), &params(1_000_000)).unwrap().out_amount, 999_000);
}

#[test]
fn unknown_mint_is_not_found() {
    let amm = amm(pool(0, 0));
    let unknown_input = QuoteParams { in_amount: 1, input_mint: key(99), output_mint: key(SNTR) };
    let unknown_output = QuoteParams { in_amount: 1, input_mint: key(USDC), output_mint: key(99) };
    assert_eq!(amm.quote_terms(&unknown_input), Err(ErrorCode::NotFound));
    assert_eq!(amm.quote_terms(&unknown_output), Err(ErrorCode::NotFound));
    assert_eq!(amm.quote(&unknown_input, Some(5)), Err(ErrorCode::NotFound));
    assert_eq!(amm.quote(&unknown_output, None), Err(ErrorCode::NotFound));
}

#[test]
fn failed_pricing_is_never_quoted() {
    let amm = amm(pool(0, 0));
    assert_eq!(amm.quote(&params(1_000_000), None), Err(ErrorCode::InvalidInvariant));
}

#[test]
fn weights_that_cannot_be_normalized_give_no_terms() {
    let mut weightless = pool(0, 0);
    weightless.weights = vec![0, 0];
    assert_eq!(amm(weightless).quote_terms(&params(1)), Err(ErrorCode::InvalidInvariant));
    let mut heavy = pool(0, 0);
    heavy.weights = vec![u64::MAX, 1];
    let heavy = amm(heavy);
    assert_eq!(heavy.quote_terms(&params(1)), Err(ErrorCode::InvalidInvariant));
    assert_eq!(heavy.quote(&params(1), Some(1)), Err(ErrorCode::InvalidInvariant));
}

#[test]
fn zero_divisors_give_no_terms() {
    let mut no_ask_weight = pool(0, 0);
    no_ask_weight.weights = vec![1, 0];
    assert_eq!(amm(no_ask_weight).quote_terms(&params(1)), Err(ErrorCode::InvalidInvariant));

    let mut no_bid_weight = pool(0, 0);
    no_bid_weight.weights = vec![0, 1];
    let terms = amm(no_bid_weight).quote_terms(&params(1)).unwrap();
    assert_eq!(price(&terms), Some(0));

    let mut drained = pool(0, 0);
    drained.reserves = vec![0, 1_000];
    let drained = amm(drained);
    assert_eq!(drained.quote_terms(&params(0)), Err(ErrorCode::InvalidInvariant));
    assert!(drained.quote_terms(&params(1)).is_ok());
}

#[test]
fn tax_above_one_is_an_arithmetic_error() {
    let amm = amm(pool(0, u64::MAX));
    assert_eq!(amm.quote(&params(1), Some(u64::MAX)), Err(ErrorCode::ArithmeticOverflow));
    assert_eq!(amm.quote(&params(1), Some(2)), Err(ErrorCode::ArithmeticUnderflow));
}

#[test]
fn same_asset_on_both_sides_is_priced_like_any_other() {
    let amm = amm(pool(0, 0));
    let round = QuoteParams { in_amount: 1_000_000, input_mint: key(USDC), output_mint: key(USDC) };
    let terms = amm.quote_terms(&round).unwrap();
    assert_eq!(terms.bid_reserve, terms.ask_reserve);
    assert_eq!(amm.quote(&round, price(&terms)).unwrap().out_amount, 999_000);
}

#[test]
fn engine_identity() {
    let amm = amm(pool(0, 0));
    assert_eq!(amm.label(), "Balansol".to_string());
    assert_eq!(amm.key(), key(90));
    assert_eq!(amm.program_id(), key(91));
    assert_eq!(amm.get_reserve_mints(), vec![key(USDC), key(SNTR)]);
    assert_eq!(amm.get_accounts_to_update(), vec![key(90)]);
}

#[test]
fn update_replaces_the_snapshot_only() {
    let mut amm = amm(pool(0, 0));
    let mut fresh = pool(3_000_000, 0);
    fresh.mints = vec![key(SNTR), key(USDC)];
    amm.update(fresh);
    assert_eq!(amm.key(), key(90));
    assert_eq!(amm.label(), "Balansol".to_string());
    assert_eq!(amm.get_reserve_mints(), vec![key(SNTR), key(USDC)]);
    assert_eq!(amm.quote_terms(&params(5)).unwrap().fee, 3_000_000);
}

#[test]
fn clone_is_an_equal_engine() {
    let amm = amm(pool(3_000_000, 1_000_000));
    let copy = amm.clone();
    assert_eq!(copy.key(), amm.key());
    assert_eq!(copy.label(), amm.label());
    assert_eq!(copy.program_id(), amm.program_id());
    assert_eq!(copy.get_reserve_mints(), amm.get_reserve_mints());
    assert_eq!(copy.quote_terms(&params(9)), amm.quote_terms(&params(9)));
    assert_eq!(copy.quote(&params(9), Some(8)), amm.quote(&params(9), Some(8)));
}

#[test]
fn zero_divisor_is_told_from_the_terms() {
    let sound = SwapTerms {
        bid_amount: 1,
        bid_reserve: 0,
        bid_weight: NormalizedWeight { weight: 0, total: 2 },
        ask_reserve: 0,
        ask_weight: NormalizedWeight { weight: 2, total: 2 },
        fee: 0,
    };
    assert!(!sound.has_zero_divisor());
    assert!(SwapTerms { bid_amount: 0, ..sound }.has_zero_divisor());
    assert!(!SwapTerms { bid_amount: 0, bid_reserve: 1, ..sound }.has_zero_divisor());
    assert!(SwapTerms { ask_weight: NormalizedWeight { weight: 0, total: 2 }, ..sound }
        .has_zero_divisor());
}

#[test]
fn quoting_in_one_step_equals_quoting_in_two() {
    let amm = amm(pool(3_000_000, 1_000_000));
    for bid in [0, 1, 999, 1_000_000, u64::MAX] {
        let terms = amm.quote_terms(&params(bid)).unwrap();
        assert_eq!(quote(&amm, &params(bid)), amm.quote(&params(bid), price(&terms)));
    }
}

#[test]
fn pricing_is_not_asked_without_terms() {
    let amm = amm(pool(0, 0));
    let unknown = QuoteParams { in_amount: 1, input_mint: key(99), output_mint: key(SNTR) };
    let refused = amm.quote_with(&unknown, |_| panic!("priced a request without terms"));
    assert_eq!(refused, Err(ErrorCode::NotFound));
}

#[test]
fn pricing_that_fails_is_reported() {
    let amm = amm(pool(0, 0));
    assert_eq!(amm.quote_with(&params(5), |_| None), Err(ErrorCode::InvalidInvariant));
    assert_eq!(amm.quote_with(&params(5), |terms| Some(terms.bid_amount)).unwrap().out_amount, 5);
}
