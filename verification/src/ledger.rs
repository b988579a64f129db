//! The share ledger: two counters and the four transitions over them.

use vstd::prelude::*;

use crate::error::LedgerError;
use crate::math::{
    lemma_equal_ratio_identity, lemma_payout_preserves_solvency, lemma_payout_within_pool,
    mul_div_floor,
};

verus! {

/// The pool-wide accounting state: the shares outstanding against the
/// pool and the tokens the pool holds.  Per-holder balances are outside
/// the model; the backing storage and its authorization are the
/// caller's concern.
#[derive(Clone, Copy, Debug, PartialEq, Eq, Structural)]
pub struct Vault {
    /// Sum of all shares issued.
    pub shares_total: u64,
    /// Sum of all tokens currently held by the pool.
    pub token_total: u64,
}

impl Vault {
    /// Solvency: every outstanding share is backed by a token, so all
    /// claims can be redeemed without the pool going negative.
    pub open spec fn solvent(self) -> bool {
        self.shares_total <= self.token_total
    }

    /// The error `deposit(tkn)` reports, or `None` where it succeeds.
    pub open spec fn deposit_err(self, tkn: u64) -> Option<LedgerError> {
        if tkn == 0 {
            Some(LedgerError::InvalidAmount)
        } else if self.shares_total != self.token_total && self.token_total == 0 {
            Some(LedgerError::DivisionByZero)
        } else if self.shares_total + tkn > u64::MAX || self.token_total + tkn > u64::MAX {
            Some(LedgerError::Overflow)
        } else {
            None
        }
    }

    /// The state a successful `deposit(tkn)` leaves behind: the issued
    /// shares equal the deposited tokens, so both counters grow by
    /// `tkn`.
    pub open spec fn deposit_next(self, tkn: u64) -> Vault {
        Vault {
            shares_total: (self.shares_total + tkn) as u64,
            token_total: (self.token_total + tkn) as u64,
        }
    }

    /// The error `withdraw(shares)` reports, or `None` where it
    /// succeeds.
    pub open spec fn withdraw_err(self, shares: u64) -> Option<LedgerError> {
        if shares > self.shares_total {
            Some(LedgerError::Underflow)
        } else if self.shares_total != self.token_total && self.shares_total == 0 {
            Some(LedgerError::DivisionByZero)
        } else {
            None
        }
    }

    /// The tokens a successful `withdraw(shares)` releases: `shares`
    /// itself at the 1:1 exchange rate, and the floor of the
    /// proportional claim otherwise.
    pub open spec fn withdraw_payout(self, shares: u64) -> int {
        if self.shares_total == self.token_total {
            shares as int
        } else {
            (shares * self.token_total) / (self.shares_total as int)
        }
    }

    /// The state a successful `withdraw(shares)` leaves behind.
    pub open spec fn withdraw_next(self, shares: u64) -> Vault {
        Vault {
            shares_total: (self.shares_total - shares) as u64,
            token_total: (self.token_total - self.withdraw_payout(shares)) as u64,
        }
    }

    /// The error `reward(tkn)` reports, or `None` where it succeeds.
    pub open spec fn reward_err(self, tkn: u64) -> Option<LedgerError> {
        if tkn == 0 {
            Some(LedgerError::InvalidAmount)
        } else if self.token_total + tkn > u64::MAX {
            Some(LedgerError::Overflow)
        } else {
            None
        }
    }

    /// The state a successful `reward(tkn)` leaves behind.
    pub open spec fn reward_next(self, tkn: u64) -> Vault {
        Vault { shares_total: self.shares_total, token_total: (self.token_total + tkn) as u64 }
    }

    /// The error `slash(tkn)` reports, or `None` where it succeeds.
    pub open spec fn slash_err(self, tkn: u64) -> Option<LedgerError> {
        if tkn > self.token_total {
            Some(LedgerError::Underflow)
        } else {
            None
        }
    }

    /// The state a successful `slash(tkn)` leaves behind.
    pub open spec fn slash_next(self, tkn: u64) -> Vault {
        Vault { shares_total: self.shares_total, token_total: (self.token_total - tkn) as u64 }
    }

    /// A ledger seeded with the given totals.
    pub fn new(shares_total: u64, token_total: u64) -> (v: Vault)
        ensures
            v == (Vault { shares_total, token_total }),
    {
        Vault { shares_total, token_total }
    }

    /// Deposits `tkn` tokens into the pool and issues shares for them.
    ///
    /// At the 1:1 exchange rate (equal totals, including the empty
    /// pool) the deposit mints `tkn` shares; the general case routes
    /// through the same floor-division helper as `withdraw` and, with
    /// the pre-deposit `token_total` as both numerator and denominator,
    /// also mints `tkn`.  A zero deposit is refused rather than
    /// silently minting zero shares, and both additions are checked, so
    /// a failure leaves the ledger untouched and a success grows both
    /// counters equally, which preserves solvency.
    pub fn deposit(&mut self, tkn: u64) -> (r: Result<u64, LedgerError>)
        ensures
            match r {
                Ok(shares) => {
                    &&& old(self).deposit_err(tkn) is None
                    &&& shares == tkn
                    &&& *final(self) == old(self).deposit_next(tkn)
                },
                Err(e) => {
                    &&& *final(self) == *old(self)
                    &&& old(self).deposit_err(tkn) == Some(e)
                },
            },
            old(self).solvent() ==> final(self).solvent(),
    {
        if tkn == 0 {
            return Err(LedgerError::InvalidAmount);
        }
        let mut shares_total: u64 = self.shares_total;
        let mut token_total: u64 = self.token_total;
        let shares_for_user: u64 = if shares_total == token_total {
            tkn
        } else {
            match mul_div_floor(tkn, token_total, token_total) {
                Ok(q) => {
                    proof {
                        lemma_equal_ratio_identity(tkn as int, token_total as int);
                    }
                    q
                },
                Err(e) => {
                    proof {
                        if token_total != 0 {
                            lemma_equal_ratio_identity(tkn as int, token_total as int);
                        }
                    }
                    return Err(e);
                },
            }
        };
        match mint_shares(&mut shares_total, shares_for_user) {
            Ok(()) => (),
            Err(e) => {
                return Err(e);
            },
        }
        match add_token(&mut token_total, tkn) {
            Ok(()) => (),
            Err(e) => {
                return Err(e);
            },
        }
        self.shares_total = shares_total;
        self.token_total = token_total;
        Ok(shares_for_user)
    }

    /// Redeems `shares` shares for their proportional token claim.
    ///
    /// At the 1:1 exchange rate the payout equals `shares`; otherwise
    /// it is `floor(shares * token_total / shares_total)`, rounded down
    /// so the pool never pays out more than it owes.  Redeeming more
    /// shares than are outstanding is refused up front, a failure
    /// leaves the ledger untouched, and a successful withdrawal from a
    /// solvent pool leaves the pool solvent.
    pub fn withdraw(&mut self, shares: u64) -> (r: Result<u64, LedgerError>)
        ensures
            match r {
                Ok(tokens) => {
                    &&& old(self).withdraw_err(shares) is None
                    &&& tokens == old(self).withdraw_payout(shares)
                    &&& *final(self) == old(self).withdraw_next(shares)
                },
                Err(e) => {
                    &&& *final(self) == *old(self)
                    &&& old(self).withdraw_err(shares) == Some(e)
                },
            },
            old(self).solvent() ==> final(self).solvent(),
    {
        if shares > self.shares_total {
            return Err(LedgerError::Underflow);
        }
        let mut shares_total: u64 = self.shares_total;
        let mut token_total: u64 = self.token_total;
        let tkn_for_user: u64 = if shares_total == token_total {
            shares
        } else {
            proof {
                if shares_total != 0 {
                    lemma_payout_within_pool(
                        shares as int,
                        shares_total as int,
                        token_total as int,
                    );
                }
            }
            match mul_div_floor(shares, token_total, shares_total) {
                Ok(q) => q,
                Err(e) => {
                    return Err(e);
                },
            }
        };
        match burn_shares(&mut shares_total, shares) {
            Ok(()) => (),
            Err(e) => {
                return Err(e);
            },
        }
        match del_token(&mut token_total, tkn_for_user) {
            Ok(()) => (),
            Err(e) => {
                return Err(e);
            },
        }
        proof {
            if old(self).shares_total != old(self).token_total && old(self).solvent() {
                lemma_payout_preserves_solvency(
                    shares as int,
                    old(self).shares_total as int,
                    old(self).token_total as int,
                );
            }
        }
        self.shares_total = shares_total;
        self.token_total = token_total;
        Ok(tkn_for_user)
    }

    /// Adds `tkn` tokens of yield to the pool without issuing shares,
    /// raising the redemption value of the shares already outstanding.
    /// Growth of `token_total` alone can only strengthen solvency.
    pub fn reward(&mut self, tkn: u64) -> (r: Result<(), LedgerError>)
        ensures
            match r {
                Ok(()) => {
                    &&& old(self).reward_err(tkn) is None
                    &&& *final(self) == old(self).reward_next(tkn)
                },
                Err(e) => {
                    &&& *final(self) == *old(self)
                    &&& old(self).reward_err(tkn) == Some(e)
                },
            },
            old(self).solvent() ==> final(self).solvent(),
    {
        let mut token_total: u64 = self.token_total;
        match add_token(&mut token_total, tkn) {
            Ok(()) => (),
            Err(e) => {
                return Err(e);
            },
        }
        self.token_total = token_total;
        Ok(())
    }

    /// Removes `tkn` tokens from the pool, e.g. to cover a loss,
    /// without retiring shares.  This is the one transition that can
    /// break solvency: the ledger only performs the subtraction safely
    /// and reports the resulting state truthfully, and bounding the
    /// slash is the caller's responsibility.
    pub fn slash(&mut self, tkn: u64) -> (r: Result<(), LedgerError>)
        ensures
            match r {
                Ok(()) => {
                    &&& old(self).slash_err(tkn) is None
                    &&& *final(self) == old(self).slash_next(tkn)
                },
                Err(e) => {
                    &&& *final(self) == *old(self)
                    &&& old(self).slash_err(tkn) == Some(e)
                },
            },
    {
        let mut token_total: u64 = self.token_total;
        match del_token(&mut token_total, tkn) {
            Ok(()) => (),
            Err(e) => {
                return Err(e);
            },
        }
        self.token_total = token_total;
        Ok(())
    }
}

/// Issues `shares_for_user` new shares: a checked addition that refuses
/// a zero mint.
pub fn mint_shares(shares_total: &mut u64, shares_for_user: u64) -> (r: Result<(), LedgerError>)
    ensures
        match r {
            Ok(()) => {
                &&& shares_for_user > 0
                &&& *old(shares_total) + shares_for_user <= u64::MAX
                &&& *final(shares_total) == *old(shares_total) + shares_for_user
            },
            Err(e) => {
                &&& *final(shares_total) == *old(shares_total)
                &&& (if shares_for_user == 0 {
                    e == LedgerError::InvalidAmount
                } else {
                    e == LedgerError::Overflow && *old(shares_total) + shares_for_user > u64::MAX
                })
            },
        },
{
    if shares_for_user == 0 {
        return Err(LedgerError::InvalidAmount);
    }
    match shares_total.checked_add(shares_for_user) {
        Some(sum) => {
            *shares_total = sum;
            Ok(())
        },
        None => Err(LedgerError::Overflow),
    }
}

/// Retires `shares` shares: a checked subtraction.
pub fn burn_shares(shares_total: &mut u64, shares: u64) -> (r: Result<(), LedgerError>)
    ensures
        match r {
            Ok(()) => {
                &&& shares <= *old(shares_total)
                &&& *final(shares_total) == *old(shares_total) - shares
            },
            Err(e) => {
                &&& *final(shares_total) == *old(shares_total)
                &&& e == LedgerError::Underflow
                &&& shares > *old(shares_total)
            },
        },
{
    match shares_total.checked_sub(shares) {
        Some(rest) => {
            *shares_total = rest;
            Ok(())
        },
        None => Err(LedgerError::Underflow),
    }
}

/// Adds `tkn` tokens to the pool: a checked addition that refuses a
/// zero amount.
pub fn add_token(token_total: &mut u64, tkn: u64) -> (r: Result<(), LedgerError>)
    ensures
        match r {
            Ok(()) => {
                &&& tkn > 0
                &&& *old(token_total) + tkn <= u64::MAX
                &&& *final(token_total) == *old(token_total) + tkn
            },
            Err(e) => {
                &&& *final(token_total) == *old(token_total)
                &&& (if tkn == 0 {
                    e == LedgerError::InvalidAmount
                } else {
                    e == LedgerError::Overflow && *old(token_total) + tkn > u64::MAX
                })
            },
        },
{
    if tkn == 0 {
        return Err(LedgerError::InvalidAmount);
    }
    match token_total.checked_add(tkn) {
        Some(sum) => {
            *token_total = sum;
            Ok(())
        },
        None => Err(LedgerError::Overflow),
    }
}

/// Releases `tkn_for_user` tokens from the pool: a checked subtraction.
pub fn del_token(token_total: &mut u64, tkn_for_user: u64) -> (r: Result<(), LedgerError>)
    ensures
        match r {
            Ok(()) => {
                &&& tkn_for_user <= *old(token_total)
                &&& *final(token_total) == *old(token_total) - tkn_for_user
            },
            Err(e) => {
                &&& *final(token_total) == *old(token_total)
                &&& e == LedgerError::Underflow
                &&& tkn_for_user > *old(token_total)
            },
        },
{
    match token_total.checked_sub(tkn_for_user) {
        Some(rest) => {
            *token_total = rest;
            Ok(())
        },
        None => Err(LedgerError::Underflow),
    }
}

} // verus!
