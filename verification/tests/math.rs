use share_ledger::error::LedgerError;
use share_ledger::ledger::{add_token, burn_shares, del_token, mint_shares};
use share_ledger::math::mul_div_floor;

#[test]
fn mul_div_floor_takes_the_floor() {
    assert_eq!(mul_div_floor(7, 3, 2), Ok(10));
    assert_eq!(mul_div_floor(1, 10, 3), Ok(3));
    assert_eq!(mul_div_floor(0, 10, 3), Ok(0));
    assert_eq!(mul_div_floor(50, 200, 100), Ok(100));
}

#[test]
fn mul_div_floor_carries_the_product_in_wide_precision() {
    assert_eq!(mul_div_floor(u64::MAX, u64::MAX, u64::MAX), Ok(u64::MAX));
    assert_eq!(mul_div_floor(u64::MAX, 2, 4), Ok(u64::MAX / 2));
}

#[test]
fn mul_div_floor_rejects_a_zero_denominator() {
    assert_eq!(mul_div_floor(1, 1, 0), Err(LedgerError::DivisionByZero));
    assert_eq!(mul_div_floor(0, 0, 0), Err(LedgerError::DivisionByZero));
}

#[test]
fn mul_div_floor_rejects_a_quotient_beyond_the_counter_width() {
    assert_eq!(mul_div_floor(u64::MAX, 2, 1), Err(LedgerError::Overflow));
    assert_eq!(mul_div_floor(u64::MAX, u64::MAX, 1), Err(LedgerError::Overflow));
}

#[test]
fn mint_shares_is_a_checked_addition_refusing_zero() {
    let mut total: u64 = 10;
    assert_eq!(mint_shares(&mut total, 5), Ok(()));
    assert_eq!(total, 15);
    assert_eq!(mint_shares(&mut total, 0), Err(LedgerError::InvalidAmount));
    assert_eq!(total, 15);
    let mut high: u64 = u64::MAX;
    assert_eq!(mint_shares(&mut high, 1), Err(LedgerError::Overflow));
    assert_eq!(high, u64::MAX);
}

#[test]
fn burn_shares_is_a_checked_subtraction() {
    let mut total: u64 = 10;
    assert_eq!(burn_shares(&mut total, 4), Ok(()));
    assert_eq!(total, 6);
    assert_eq!(burn_shares(&mut total, 7), Err(LedgerError::Underflow));
    assert_eq!(total, 6);
    assert_eq!(burn_shares(&mut total, 0), Ok(()));
    assert_eq!(total, 6);
}

#[test]
fn add_token_is_a_checked_addition_refusing_zero() {
    let mut total: u64 = 3;
    assert_eq!(add_token(&mut total, 9), Ok(()));
    assert_eq!(total, 12);
    assert_eq!(add_token(&mut total, 0), Err(LedgerError::InvalidAmount));
    assert_eq!(total, 12);
    let mut high: u64 = u64::MAX - 1;
    assert_eq!(add_token(&mut high, 2), Err(LedgerError::Overflow));
    assert_eq!(high, u64::MAX - 1);
}

#[test]
fn del_token_is_a_checked_subtraction() {
    let mut total: u64 = 12;
    assert_eq!(del_token(&mut total, 12), Ok(()));
    assert_eq!(total, 0);
    assert_eq!(del_token(&mut total, 1), Err(LedgerError::Underflow));
    assert_eq!(total, 0);
}
