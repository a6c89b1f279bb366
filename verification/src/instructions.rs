//! The operations that change a pool.

pub mod swap;
