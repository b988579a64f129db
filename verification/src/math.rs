//! The checked proportional-math helper and the arithmetic facts that the
//! ledger's solvency argument rests on.

use vstd::prelude::*;
use vstd::arithmetic::div_mod::{
    lemma_div_is_ordered, lemma_div_by_multiple, lemma_fundamental_div_mod, lemma_mod_bound,
};
use vstd::arithmetic::mul::{
    lemma_mul_inequality, lemma_mul_is_commutative, lemma_mul_nonnegative,
};

use crate::error::LedgerError;

verus! {

/// Computes `floor(a * b / c)`, carrying the product in 128-bit
/// precision so it cannot overflow, and narrowing the quotient back to
/// 64 bits with an explicit range check.
///
/// Fails with `DivisionByZero` when `c == 0`, and with `Overflow` when
/// the quotient does not fit in a `u64`; it never panics.
pub fn mul_div_floor(a: u64, b: u64, c: u64) -> (r: Result<u64, LedgerError>)
    ensures
        match r {
            Ok(q) => c != 0 && (a * b) / (c as int) <= u64::MAX && q == (a * b) / (c as int),
            Err(e) => (if c == 0 {
                e == LedgerError::DivisionByZero
            } else {
                e == LedgerError::Overflow && (a * b) / (c as int) > u64::MAX
            }),
        },
{
    if c == 0 {
        return Err(LedgerError::DivisionByZero);
    }
    proof {
        lemma_mul_inequality(a as int, u64::MAX as int, b as int);
        lemma_mul_inequality(b as int, u64::MAX as int, u64::MAX as int);
        lemma_mul_is_commutative(a as int, b as int);
        lemma_mul_is_commutative(b as int, u64::MAX as int);
    }
    let wide: u128 = (a as u128) * (b as u128);
    let quotient: u128 = wide / (c as u128);
    if quotient > u64::MAX as u128 {
        Err(LedgerError::Overflow)
    } else {
        Ok(quotient as u64)
    }
}

/// The proportional payout never exceeds the pool: when no more than
/// `total_shares` shares are redeemed, `floor(shares * total_tokens /
/// total_shares)` is at most `total_tokens`.
pub proof fn lemma_payout_within_pool(shares: int, total_shares: int, total_tokens: int)
    requires
        0 < total_shares,
        0 <= shares <= total_shares,
        0 <= total_tokens,
    ensures
        (shares * total_tokens) / total_shares <= total_tokens,
{
    lemma_mul_inequality(shares, total_shares, total_tokens);
    lemma_div_is_ordered(
        shares * total_tokens,
        total_shares * total_tokens,
        total_shares,
    );
    lemma_div_by_multiple(total_tokens, total_shares);
    lemma_mul_is_commutative(total_shares, total_tokens);
}

/// The step of the solvency argument that needs nonlinear reasoning:
/// with the floor quotient written as `q` and its remainder as `r`, a
/// redemption of at most `total_shares` shares from a solvent pool
/// leaves the pool solvent.
proof fn lemma_payout_preserves_solvency_inner(
    shares: int,
    total_shares: int,
    total_tokens: int,
    q: int,
    r: int,
) by (nonlinear_arith)
    requires
        0 < total_shares,
        0 <= shares <= total_shares,
        total_shares <= total_tokens,
        shares * total_tokens == q * total_shares + r,
        0 <= r < total_shares,
    ensures
        total_shares - shares <= total_tokens - q,
{
}

/// Redeeming `shares` of `total_shares` shares for `floor(shares *
/// total_tokens / total_shares)` tokens preserves solvency: the shares
/// that remain never exceed the tokens that remain.
pub proof fn lemma_payout_preserves_solvency(shares: int, total_shares: int, total_tokens: int)
    requires
        0 < total_shares,
        0 <= shares <= total_shares,
        total_shares <= total_tokens,
    ensures
        total_shares - shares <= total_tokens - (shares * total_tokens) / total_shares,
{
    let q = (shares * total_tokens) / total_shares;
    let r = (shares * total_tokens) % total_shares;
    lemma_mul_nonnegative(shares, total_tokens);
    lemma_fundamental_div_mod(shares * total_tokens, total_shares);
    lemma_mod_bound(shares * total_tokens, total_shares);
    lemma_mul_is_commutative(total_shares, q);
    lemma_payout_preserves_solvency_inner(shares, total_shares, total_tokens, q, r);
}

/// Scaling by an equal numerator and denominator changes nothing:
/// `floor(amount * total / total) == amount` whenever `total > 0`.
pub proof fn lemma_equal_ratio_identity(amount: int, total: int)
    requires
        0 <= amount,
        0 < total,
    ensures
        (amount * total) / total == amount,
{
    lemma_div_by_multiple(amount, total);
}

} // verus!
