use vstd::prelude::*;

verus! {

/// Why a quote was refused. Every error is terminal for the requested quote.
#[derive(Clone, Copy, Debug, PartialEq, Eq, Structural)]
pub enum AmmError {
    /// A sum or product does not fit the representable range.
    Overflow,
    /// A subtraction would go below zero.
    Underflow,
    /// A divisor (share supply, or a new reserve) is zero.
    DivisionByZero,
    /// The computed output is below the caller's minimum.
    SlippageExceeded,
    /// The pool cannot pay the computed output.
    InsufficientLiquidity,
    /// The requested amount is zero.
    ZeroAmount,
}

} // verus!
