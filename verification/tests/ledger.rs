use share_ledger::error::LedgerError;
use share_ledger::ledger::Vault;

#[test]
fn deposit_into_empty_pool_mints_one_to_one() {
    let mut v = Vault::new(0, 0);
    assert_eq!(v.deposit(100), Ok(100));
    assert_eq!(v, Vault { shares_total: 100, token_total: 100 });
}

#[test]
fn example_scenario_deposit_deposit_withdraw() {
    let mut v = Vault::new(0, 0);
    assert_eq!(v.deposit(100), Ok(100));
    assert_eq!(v, Vault { shares_total: 100, token_total: 100 });
    assert_eq!(v.deposit(50), Ok(50));
    assert_eq!(v, Vault { shares_total: 150, token_total: 150 });
    assert_eq!(v.withdraw(50), Ok(50));
    assert_eq!(v, Vault { shares_total: 100, token_total: 100 });
}

#[test]
fn deposit_at_equal_totals_issues_exactly_the_amount() {
    let mut v = Vault::new(250, 250);
    assert_eq!(v.deposit(17), Ok(17));
    assert_eq!(v, Vault { shares_total: 267, token_total: 267 });
}

#[test]
fn deposit_zero_fails_with_invalid_amount() {
    let mut v = Vault::new(0, 0);
    assert_eq!(v.deposit(0), Err(LedgerError::InvalidAmount));
    assert_eq!(v, Vault { shares_total: 0, token_total: 0 });

    let mut w = Vault::new(40, 90);
    assert_eq!(w.deposit(0), Err(LedgerError::InvalidAmount));
    assert_eq!(w, Vault { shares_total: 40, token_total: 90 });
}

#[test]
fn deposit_at_unequal_totals_routes_through_the_proportional_helper() {
    let mut v = Vault::new(40, 90);
    assert_eq!(v.deposit(10), Ok(10));
    assert_eq!(v, Vault { shares_total: 50, token_total: 100 });
}

#[test]
fn deposit_overflow_boundary_leaves_ledger_unchanged() {
    let mut v = Vault::new(u64::MAX, u64::MAX);
    assert_eq!(v.deposit(1), Err(LedgerError::Overflow));
    assert_eq!(v, Vault { shares_total: u64::MAX, token_total: u64::MAX });

    let mut w = Vault::new(5, u64::MAX);
    assert_eq!(w.deposit(1), Err(LedgerError::Overflow));
    assert_eq!(w, Vault { shares_total: 5, token_total: u64::MAX });
}

#[test]
fn deposit_on_drained_insolvent_pool_reports_division_by_zero() {
    let mut v = Vault::new(7, 0);
    assert_eq!(v.deposit(3), Err(LedgerError::DivisionByZero));
    assert_eq!(v, Vault { shares_total: 7, token_total: 0 });
}

#[test]
fn withdraw_at_equal_totals_releases_exactly_the_shares() {
    let mut v = Vault::new(80, 80);
    assert_eq!(v.withdraw(30), Ok(30));
    assert_eq!(v, Vault { shares_total: 50, token_total: 50 });
    assert_eq!(v.withdraw(50), Ok(50));
    assert_eq!(v, Vault { shares_total: 0, token_total: 0 });
}

#[test]
fn withdraw_pays_the_proportional_floor() {
    let mut v = Vault::new(100, 200);
    assert_eq!(v.withdraw(50), Ok(100));
    assert_eq!(v, Vault { shares_total: 50, token_total: 100 });

    let mut w = Vault::new(3, 10);
    assert_eq!(w.withdraw(1), Ok(3));
    assert_eq!(w, Vault { shares_total: 2, token_total: 7 });
}

#[test]
fn withdraw_underflow_boundary_leaves_ledger_unchanged() {
    let mut v = Vault::new(100, 250);
    assert_eq!(v.withdraw(101), Err(LedgerError::Underflow));
    assert_eq!(v, Vault { shares_total: 100, token_total: 250 });

    let mut w = Vault::new(0, 0);
    assert_eq!(w.withdraw(1), Err(LedgerError::Underflow));
    assert_eq!(w, Vault { shares_total: 0, token_total: 0 });
}

#[test]
fn withdraw_zero_from_shareless_pool_reports_division_by_zero() {
    let mut v = Vault::new(0, 7);
    assert_eq!(v.withdraw(0), Err(LedgerError::DivisionByZero));
    assert_eq!(v, Vault { shares_total: 0, token_total: 7 });
}

#[test]
fn reward_grows_only_the_token_total() {
    let mut v = Vault::new(100, 100);
    assert_eq!(v.reward(50), Ok(()));
    assert_eq!(v, Vault { shares_total: 100, token_total: 150 });
}

#[test]
fn reward_zero_fails_with_invalid_amount() {
    let mut v = Vault::new(100, 150);
    assert_eq!(v.reward(0), Err(LedgerError::InvalidAmount));
    assert_eq!(v, Vault { shares_total: 100, token_total: 150 });
}

#[test]
fn reward_overflow_leaves_ledger_unchanged() {
    let mut v = Vault::new(10, u64::MAX - 1);
    assert_eq!(v.reward(2), Err(LedgerError::Overflow));
    assert_eq!(v, Vault { shares_total: 10, token_total: u64::MAX - 1 });
}

#[test]
fn reward_slash_round_trip_and_the_one_way_to_break_solvency() {
    let mut v = Vault::new(100, 100);
    assert_eq!(v.reward(50), Ok(()));
    assert_eq!(v, Vault { shares_total: 100, token_total: 150 });
    assert_eq!(v.slash(50), Ok(()));
    assert_eq!(v, Vault { shares_total: 100, token_total: 100 });
    assert_eq!(v.slash(1), Ok(()));
    assert_eq!(v, Vault { shares_total: 100, token_total: 99 });
    assert!(v.shares_total > v.token_total);
}

#[test]
fn slash_underflow_leaves_ledger_unchanged() {
    let mut v = Vault::new(10, 40);
    assert_eq!(v.slash(41), Err(LedgerError::Underflow));
    assert_eq!(v, Vault { shares_total: 10, token_total: 40 });
}

#[test]
fn solvency_holds_along_a_mixed_sequence() {
    let mut v = Vault::new(5, 10);
    assert!(v.shares_total <= v.token_total);
    assert_eq!(v.deposit(3), Ok(3));
    assert!(v.shares_total <= v.token_total);
    assert_eq!(v.withdraw(4), Ok(6));
    assert!(v.shares_total <= v.token_total);
    assert_eq!(v.reward(5), Ok(()));
    assert!(v.shares_total <= v.token_total);
    // A slash kept within the pool's surplus preserves solvency too.
    let surplus = v.token_total - v.shares_total;
    assert_eq!(v.slash(surplus), Ok(()));
    assert!(v.shares_total <= v.token_total);
    let all_shares = v.shares_total;
    assert_eq!(v.withdraw(all_shares), Ok(all_shares));
    assert_eq!(v, Vault { shares_total: 0, token_total: 0 });
}

#[test]
fn slash_of_the_whole_pool_succeeds() {
    let mut v = Vault::new(0, 40);
    assert_eq!(v.slash(40), Ok(()));
    assert_eq!(v, Vault { shares_total: 0, token_total: 0 });
}
