//! The pool and the operations it offers.

pub mod ledger;
pub mod pool;
pub mod pool_trait;
pub mod terms;
