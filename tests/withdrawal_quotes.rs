use amm_engine::error::AmmError;
use amm_engine::withdraw::{quote_withdrawal, Withdraw, WithdrawalQuote};

#[test]
fn withdrawal_proportional_share() {
    assert_eq!(
        quote_withdrawal(1_000_000, 2_000_000, 1_000_000, 1000, 0, 0),
        Ok(WithdrawalQuote { token_x: 1000, token_y: 2000 })
    );
}

#[test]
fn withdrawal_zero_supply_divides_by_zero() {
    assert_eq!(quote_withdrawal(1_000, 2_000, 0, 1, 0, 0), Err(AmmError::DivisionByZero));
    assert_eq!(quote_withdrawal(1_000, 2_000, 0, u64::MAX, 0, 0), Err(AmmError::DivisionByZero));
}

#[test]
fn withdrawal_zero_amount() {
    assert_eq!(quote_withdrawal(1_000, 2_000, 500, 0, 0, 0), Err(AmmError::ZeroAmount));
    assert_eq!(quote_withdrawal(1_000, 2_000, 0, 0, 0, 0), Err(AmmError::ZeroAmount));
}

#[test]
fn withdrawal_full_supply_drains_pool() {
    assert_eq!(
        quote_withdrawal(1_000_003, u64::MAX, 77, 77, 0, 0),
        Ok(WithdrawalQuote { token_x: 1_000_003, token_y: u64::MAX })
    );
}

#[test]
fn withdrawal_rounds_down() {
    // 1 * 10 / 3 = 3, 1 * 20 / 3 = 6
    assert_eq!(
        quote_withdrawal(10, 20, 3, 1, 0, 0),
        Ok(WithdrawalQuote { token_x: 3, token_y: 6 })
    );
}

#[test]
fn withdrawal_slippage_on_either_asset() {
    assert_eq!(quote_withdrawal(10, 20, 3, 1, 4, 0), Err(AmmError::SlippageExceeded));
    assert_eq!(quote_withdrawal(10, 20, 3, 1, 0, 7), Err(AmmError::SlippageExceeded));
    assert!(quote_withdrawal(10, 20, 3, 1, 3, 6).is_ok());
}

#[test]
fn withdrawal_wide_product_does_not_overflow() {
    // the product exceeds 64 bits but the share fits
    let half = u64::MAX / 2;
    assert_eq!(
        quote_withdrawal(u64::MAX, 4, u64::MAX, half, 0, 0),
        Ok(WithdrawalQuote { token_x: half, token_y: 1 })
    );
}

#[test]
fn withdrawal_share_above_range_overflows() {
    assert_eq!(quote_withdrawal(u64::MAX, 1, 1, 2, 0, 0), Err(AmmError::Overflow));
}

#[test]
fn withdrawal_repeatable() {
    let a = quote_withdrawal(987_654, 123_457, 55_555, 4_321, 1, 1);
    let b = quote_withdrawal(987_654, 123_457, 55_555, 4_321, 1, 1);
    assert_eq!(a, b);
}

#[test]
fn withdraw_method_uses_snapshot() {
    let pool = Withdraw { vault_x: 1_000_000, vault_y: 2_000_000, lp_supply: 1_000_000 };
    assert_eq!(pool.withdraw(1000, 1000, 2000), Ok(WithdrawalQuote { token_x: 1000, token_y: 2000 }));
    assert_eq!(pool.withdraw(0, 0, 0), Err(AmmError::ZeroAmount));
}
