//! The ledger's laws: solvency under whole operation sequences, and the
//! exchange-rate and boundary facts that single operations obey.

use vstd::prelude::*;

use crate::error::LedgerError;
use crate::math::{lemma_payout_preserves_solvency, lemma_payout_within_pool};
use vstd::arithmetic::div_mod::lemma_div_pos_is_pos;
use vstd::arithmetic::mul::lemma_mul_nonnegative;

use crate::ledger::Vault;

verus! {

/// One requested transition of the ledger, with its operand.
pub enum LedgerOp {
    /// Deposit the given number of tokens.
    Deposit(u64),
    /// Redeem the given number of shares.
    Withdraw(u64),
    /// Add the given number of tokens as yield.
    Reward(u64),
    /// Remove the given number of tokens to cover a loss.
    Slash(u64),
}

/// The state after requesting `op` of ledger `l`: the successor state
/// where the operation succeeds, and `l` unchanged where it fails.
pub open spec fn step(l: Vault, op: LedgerOp) -> Vault {
    match op {
        LedgerOp::Deposit(tkn) => if l.deposit_err(tkn) is None {
            l.deposit_next(tkn)
        } else {
            l
        },
        LedgerOp::Withdraw(shares) => if l.withdraw_err(shares) is None {
            l.withdraw_next(shares)
        } else {
            l
        },
        LedgerOp::Reward(tkn) => if l.reward_err(tkn) is None {
            l.reward_next(tkn)
        } else {
            l
        },
        LedgerOp::Slash(tkn) => if l.slash_err(tkn) is None {
            l.slash_next(tkn)
        } else {
            l
        },
    }
}

/// The state after requesting each operation of `ops` in turn,
/// starting from `l`.
pub open spec fn run(l: Vault, ops: Seq<LedgerOp>) -> Vault
    decreases ops.len(),
{
    if ops.len() == 0 {
        l
    } else {
        step(run(l, ops.drop_last()), ops.last())
    }
}

/// Whether `op`, requested of ledger `l`, is a slash kept within the
/// pool's surplus.  Slash is the one transition that can break
/// solvency; every other operation is unconditionally within bounds.
pub open spec fn slash_within_bounds(l: Vault, op: LedgerOp) -> bool {
    op matches LedgerOp::Slash(tkn) ==> (l.slash_err(tkn) is None ==> l.shares_total
        <= l.token_total - tkn)
}

/// Solvency is preserved by every single operation whose slash, if it
/// is one, stays within the pool's surplus: whether the operation
/// succeeds or fails, a solvent ledger stays solvent.
pub proof fn lemma_step_preserves_solvency(l: Vault, op: LedgerOp)
    requires
        l.solvent(),
        slash_within_bounds(l, op),
    ensures
        step(l, op).solvent(),
{
    if let LedgerOp::Withdraw(shares) = op {
        if l.withdraw_err(shares) is None && l.shares_total != l.token_total {
            lemma_mul_nonnegative(shares as int, l.token_total as int);
            lemma_div_pos_is_pos(shares * l.token_total, l.shares_total as int);
            lemma_payout_within_pool(shares as int, l.shares_total as int, l.token_total as int);
            lemma_payout_preserves_solvency(
                shares as int,
                l.shares_total as int,
                l.token_total as int,
            );
        }
    }
}

/// The solvency invariant: from any solvent state, any sequence of
/// requested operations whose slashes stay within the pool's surplus
/// ends in a solvent state — in particular, solvency holds after every
/// deposit and withdrawal along the way.
pub proof fn lemma_solvency_invariant(l: Vault, ops: Seq<LedgerOp>)
    requires
        l.solvent(),
        forall|i: int|
            0 <= i < ops.len() ==> #[trigger] slash_within_bounds(run(l, ops.take(i)), ops[i]),
    ensures
        run(l, ops).solvent(),
    decreases ops.len(),
{
    if ops.len() > 0 {
        let n = ops.len() as int;
        let prefix = ops.drop_last();
        assert forall|i: int|
            0 <= i < prefix.len() implies #[trigger] slash_within_bounds(
            run(l, prefix.take(i)),
            prefix[i],
        ) by {
            assert(prefix.take(i) =~= ops.take(i));
            assert(slash_within_bounds(run(l, ops.take(i)), ops[i]));
        }
        lemma_solvency_invariant(l, prefix);
        assert(ops.take(n - 1) =~= prefix);
        assert(slash_within_bounds(run(l, ops.take(n - 1)), ops[n - 1]));
        lemma_step_preserves_solvency(run(l, prefix), ops.last());
    }
}

/// The deposit exchange-rate law: on a ledger whose totals are equal
/// (the empty pool included), a deposit that fits the 64-bit range
/// succeeds, issues exactly `tkn` shares, and leaves both totals at
/// `T + tkn`.
pub proof fn lemma_deposit_exchange_rate(l: Vault, tkn: u64)
    requires
        l.shares_total == l.token_total,
        tkn > 0,
        l.token_total + tkn <= u64::MAX,
    ensures
        l.deposit_err(tkn) is None,
        l.deposit_next(tkn).shares_total == l.shares_total + tkn,
        l.deposit_next(tkn).token_total == l.token_total + tkn,
{
}

/// The withdraw exchange-rate law: on a ledger whose totals are equal,
/// redeeming at most the outstanding shares succeeds, releases exactly
/// `shares` tokens, and leaves both totals at `T - shares`.
pub proof fn lemma_withdraw_exchange_rate(l: Vault, shares: u64)
    requires
        l.shares_total == l.token_total,
        shares <= l.shares_total,
    ensures
        l.withdraw_err(shares) is None,
        l.withdraw_payout(shares) == shares,
        l.withdraw_next(shares).shares_total == l.shares_total - shares,
        l.withdraw_next(shares).token_total == l.token_total - shares,
{
}

/// A zero deposit is always refused as `InvalidAmount`, whatever the
/// ledger's state: no deposit ever silently mints zero shares.
pub proof fn lemma_deposit_zero_rejected(l: Vault)
    ensures
        l.deposit_err(0) == Some(LedgerError::InvalidAmount),
{
}

/// The overflow boundary: depositing a single token into a pool whose
/// `token_total` is already at the 64-bit maximum fails with
/// `Overflow` — and, by `deposit`'s contract, leaves the ledger
/// unchanged.
pub proof fn lemma_deposit_overflow_boundary(l: Vault)
    requires
        l.token_total == u64::MAX,
    ensures
        l.deposit_err(1) == Some(LedgerError::Overflow),
{
}

/// The underflow boundary: redeeming one share more than is
/// outstanding fails with `Underflow` — and, by `withdraw`'s contract,
/// leaves the ledger unchanged.  (`shares_total + 1` must itself fit
/// in 64 bits to be requested at all.)
pub proof fn lemma_withdraw_underflow_boundary(l: Vault)
    requires
        l.shares_total < u64::MAX,
    ensures
        l.withdraw_err((l.shares_total + 1) as u64) == Some(LedgerError::Underflow),
{
}

} // verus!
