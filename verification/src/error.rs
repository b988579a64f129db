//! The failure modes of the ledger's arithmetic.

use vstd::prelude::*;

verus! {

/// Why a ledger operation was refused.  Every operation detects its
/// failure before either counter is written, so an error always leaves
/// the ledger unchanged.
#[derive(Clone, Copy, Debug, PartialEq, Eq, Structural)]
pub enum LedgerError {
    /// A zero (or otherwise disallowed) operand.
    InvalidAmount,
    /// An addition, or a widened multiply-then-divide, would exceed the
    /// 64-bit range of a counter.
    Overflow,
    /// A subtraction would drive a counter below zero.
    Underflow,
    /// The denominator of a proportional computation is zero.  The
    /// ledger's own call sites reach this only from a corrupted
    /// pre-state in which the pool is empty while shares are still
    /// outstanding.
    DivisionByZero,
}

} // verus!
