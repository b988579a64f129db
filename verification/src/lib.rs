//! A proportional-share accounting ledger.
//!
//! The ledger tracks a pool of deposited tokens together with the shares
//! issued against that pool, and offers four transitions: `deposit`,
//! `withdraw`, `reward` and `slash`.  Every transition is verified: its
//! contract states exactly when it succeeds, which error it reports
//! otherwise, and how the two counters change.  The central guarantee is
//! solvency: as long as `slash` is kept within bounds, the pool always
//! holds at least one token for every outstanding share.

pub mod error;
pub mod instruction;
pub mod laws;
pub mod ledger;
pub mod math;
