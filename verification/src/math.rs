//! Integer arithmetic of the pricing engine.

pub mod cast;
pub mod oracle;
