use amm_engine::error::AmmError;
use amm_engine::swap::{quote_swap, Swap, SwapQuote};

#[test]
fn swap_balanced_pool_thirty_bps() {
    // fee 3, net 997, new input reserve 1_000_997,
    // payout floor(1_000_000 * 997 / 1_000_997) = 996, output reserve left 999_004
    let q = quote_swap(1_000_000, 1_000_000, 30, 1000, 0).unwrap();
    assert_eq!(q, SwapQuote { amount_out: 996, fee_amount: 3 });
    assert_eq!(1_000_000 - q.amount_out, 999_004);
}

#[test]
fn swap_meets_minimum_exactly() {
    let q = quote_swap(1_000_000, 1_000_000, 30, 1000, 996).unwrap();
    assert_eq!(q.amount_out, 996);
}

#[test]
fn swap_slippage_exceeded() {
    assert_eq!(
        quote_swap(1_000_000, 1_000_000, 30, 1000, 997),
        Err(AmmError::SlippageExceeded)
    );
}

#[test]
fn swap_output_below_reserve() {
    let cases: [(u64, u64, u16, u64); 7] = [
        (1_000_000, 1_000_000, 30, 1000),
        (10, 1_000_000, 0, 1_000),
        (500, 7, 10000, 3),
        (u64::MAX / 2, u64::MAX, 25, u64::MAX / 4),
        (3, 3, 100, 5),
        (1, 1, 0, 10),
        (1, 1, 0, u64::MAX - 1),
    ];
    for (ri, ro, fee, a) in cases {
        let q = quote_swap(ri, ro, fee, a, 0).unwrap();
        assert!(q.amount_out < ro);
    }
}

#[test]
fn swap_tiny_pool_is_not_drained() {
    // floor(1 * 10 / 11) = 0: the rounding remainder stays with the pool
    let q = quote_swap(1, 1, 0, 10, 0).unwrap();
    assert_eq!(q.amount_out, 0);
}

#[test]
fn swap_product_kept_when_divisible() {
    // fee 0: new input reserve 4 divides the product 16
    let q = quote_swap(2, 8, 0, 2, 0).unwrap();
    assert_eq!(q.amount_out, 4);
    assert_eq!((2u128 + 2) * (8 - q.amount_out as u128), 16);
}

#[test]
fn swap_product_with_fee_not_below_before() {
    // fee 1 of 10 stays in the pool; new input reserve 10 divides the product 100
    let q = quote_swap(1, 100, 1000, 10, 0).unwrap();
    assert_eq!(q, SwapQuote { amount_out: 90, fee_amount: 1 });
    let after = (1u128 + 10) * (100 - q.amount_out as u128);
    assert!(after >= 100);
}

#[test]
fn swap_rounding_keeps_product() {
    // new input reserve 4 does not divide the product 6; floor(3 * 2 / 4) = 1
    let q = quote_swap(2, 3, 0, 2, 0).unwrap();
    assert_eq!(q.amount_out, 1);
    assert!((2u128 + 2) * (3 - q.amount_out as u128) >= 6);
}

#[test]
fn swap_product_not_below_before() {
    let cases: [(u64, u64, u16, u64); 5] = [
        (1_000_000, 1_000_000, 30, 1000),
        (7, 13, 0, 5),
        (1, 1, 0, 10),
        (999, 1_001, 250, 77),
        (u64::MAX / 3, u64::MAX, 30, u64::MAX / 5),
    ];
    for (ri, ro, fee, a) in cases {
        let q = quote_swap(ri, ro, fee, a, 0).unwrap();
        let net = (a - q.fee_amount) as u128;
        let before = ri as u128 * ro as u128;
        assert!((ri as u128 + net) * (ro - q.amount_out) as u128 >= before);
        assert!((ri as u128 + a as u128) * (ro - q.amount_out) as u128 >= before);
    }
}

#[test]
fn swap_output_monotone_in_input() {
    let mut last = 0u64;
    for a in 0..300u64 {
        let q = quote_swap(1_000, 5_000, 30, a * 7, 0).unwrap();
        assert!(q.amount_out >= last);
        last = q.amount_out;
    }
}

#[test]
fn swap_repeatable() {
    let a = quote_swap(123_456, 654_321, 45, 9_999, 10);
    let b = quote_swap(123_456, 654_321, 45, 9_999, 10);
    assert_eq!(a, b);
}

#[test]
fn swap_zero_amount_pays_nothing() {
    assert_eq!(
        quote_swap(1_000, 1_000, 30, 0, 0),
        Ok(SwapQuote { amount_out: 0, fee_amount: 0 })
    );
}

#[test]
fn swap_fee_above_input_underflows() {
    // 65535 bps on 10000 units is a fee of 65535
    assert_eq!(quote_swap(1_000, 1_000, 65535, 10_000, 0), Err(AmmError::Underflow));
}

#[test]
fn swap_whole_input_as_fee() {
    assert_eq!(
        quote_swap(1_000, 1_000, 10000, 50, 0),
        Ok(SwapQuote { amount_out: 0, fee_amount: 50 })
    );
}

#[test]
fn swap_new_reserve_overflow() {
    assert_eq!(quote_swap(u64::MAX, 10, 0, 1, 0), Err(AmmError::Overflow));
}

#[test]
fn swap_empty_pool_zero_input_divides_by_zero() {
    assert_eq!(quote_swap(0, 10, 30, 0, 0), Err(AmmError::DivisionByZero));
}

#[test]
fn swap_direction_picks_reserves() {
    let pool = Swap { vault_x: 1_000, vault_y: 4_000, fee: 0 };
    // X in: 4_000_000 / 2_000 = 2_000 left of Y
    assert_eq!(pool.swap(true, 1_000, 0), Ok(SwapQuote { amount_out: 2_000, fee_amount: 0 }));
    // Y in: 4_000_000 / 5_000 = 800 left of X
    assert_eq!(pool.swap(false, 1_000, 0), Ok(SwapQuote { amount_out: 200, fee_amount: 0 }));
    assert_eq!(pool.swap(false, 1_000, 201), Err(AmmError::SlippageExceeded));
}
