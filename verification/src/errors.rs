//! Failure kinds of the engine.

use vstd::prelude::*;

verus! {

/// Why an operation was refused. Every fallible operation of the engine
/// reports exactly one of these; none is ever turned into a default value.
#[derive(Clone, Copy, Debug, PartialEq, Eq, Structural)]
pub enum ErrorCode {
    /// A referenced asset or treasury is not in the pool's asset list.
    NotFound,
    /// The treasury and the asset named in a request sit at different
    /// positions of the pool.
    IndexMismatch,
    /// The pool's lifecycle state or the asset's trading state does not
    /// permit the operation.
    StateRejected,
    /// An addition would exceed the 64-bit range.
    ArithmeticOverflow,
    /// A subtraction would go below zero.
    ArithmeticUnderflow,
    /// The pricing computation has no finite, in-range result.
    InvalidInvariant,
}

} // verus!
