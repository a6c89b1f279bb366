//! Pricing engine of a weighted multi-asset liquidity pool: reserve
//! bookkeeping, lifecycle gating and quote composition, with every function
//! verified against its contract.
//!
//! The engine works on exact integers. The one step that needs a
//! non-integer power, the pricing formula itself, is left to the caller: the
//! engine hands out the formula's inputs as [`SwapTerms`] and takes its
//! answer back as a plain amount.

pub mod balansol_amm;
pub mod constant;
pub mod errors;
pub mod instructions;
pub mod math;
pub mod pubkey;
pub mod registry;
pub mod schema;

pub use crate::balansol_amm::{BalansolAmm, Quote, QuoteParams};
pub use crate::errors::ErrorCode;
pub use crate::instructions::swap::{swap, swap_with, SwapReceipt};
pub use crate::math::oracle::{
    calc_return_amount, calc_tax_amount, normalize_weight, NormalizedWeight,
};
pub use crate::pubkey::Pubkey;
pub use crate::registry::ProgramRegistry;
pub use crate::schema::ledger::Direction;
pub use crate::schema::pool::{MintActionState, Pool, PoolState, PoolValidation};
pub use crate::schema::pool_trait::{Accessor, Operation};
pub use crate::schema::terms::SwapTerms;
