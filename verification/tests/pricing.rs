use hook_amm::errors::ErrorCode;
use hook_amm::pricing::calculate_buy_amount;
use hook_amm::pricing::calculate_sell_amount;

#[test]
fn buy_amount_matches_constant_product() {
    // k = 10 * 10 = 100; new quote side 15; token side floors to 6; out 4.
    assert_eq!(calculate_buy_amount(5, 10, 10), Ok(4));
}

#[test]
fn sell_amount_matches_constant_product() {
    // k = 6 * 15 = 90; new token side 10; quote side floors to 9; out 6.
    assert_eq!(calculate_sell_amount(4, 6, 15), Ok(6));
}

#[test]
fn zero_divisor_is_rejected() {
    assert_eq!(calculate_buy_amount(0, 0, 5), Err(ErrorCode::Overflow));
    assert_eq!(calculate_sell_amount(0, 0, 5), Err(ErrorCode::Overflow));
    // A zero amount against nonzero reserves is a valid quote of zero.
    assert_eq!(calculate_buy_amount(0, 10, 10), Ok(0));
}

#[test]
fn buy_output_positive_and_below_reserves() {
    let sol_reserves: u64 = 30_000_000_000;
    let token_reserves: u64 = 1_073_000_000_000_000;
    for amount in [1u64, 1000, 1_000_000, 30_000_000_000] {
        let out = calculate_buy_amount(amount, sol_reserves, token_reserves).unwrap();
        assert!(out > 0);
        assert!(out < token_reserves);
    }
}

#[test]
fn buy_output_strictly_monotone_in_deep_pool() {
    let sol_reserves: u64 = 1000;
    let token_reserves: u64 = 1_000_000;
    let mut last: u64 = calculate_buy_amount(1, sol_reserves, token_reserves).unwrap();
    for amount in [2u64, 10, 100, 1000, 10_000] {
        let out = calculate_buy_amount(amount, sol_reserves, token_reserves).unwrap();
        assert!(out > last);
        last = out;
    }
}

#[test]
fn sell_output_strictly_monotone_in_deep_pool() {
    let token_reserves: u64 = 1000;
    let sol_reserves: u64 = 1_000_000;
    let mut last: u64 = calculate_sell_amount(1, token_reserves, sol_reserves).unwrap();
    for amount in [2u64, 10, 100, 1000, 10_000] {
        let out = calculate_sell_amount(amount, token_reserves, sol_reserves).unwrap();
        assert!(out > last);
        last = out;
    }
}

#[test]
fn largest_reserves_do_not_overflow() {
    // The 128-bit intermediate keeps the product of two maximal reserves exact.
    let out = calculate_buy_amount(u64::MAX, u64::MAX, u64::MAX).unwrap();
    // k = MAX * MAX, divisor 2 * MAX, so the token side floors to MAX / 2.
    assert_eq!(out, u64::MAX - u64::MAX / 2);
}

#[test]
fn product_preserved_within_one_division_step() {
    let sol_reserves: u64 = 30_000_000_000;
    let token_reserves: u64 = 1_073_000_000_000_000;
    for amount in [1u64, 999, 990_000_000, 7_777_777_777] {
        let out = calculate_buy_amount(amount, sol_reserves, token_reserves).unwrap();
        let k_before = sol_reserves as u128 * token_reserves as u128;
        let new_sol = sol_reserves as u128 + amount as u128;
        let new_token = (token_reserves - out) as u128;
        let k_after = new_sol * new_token;
        assert!(k_after <= k_before);
        assert!(k_before - k_after < new_sol);
    }
}

#[test]
fn round_trip_returns_no_more_than_spent() {
    let sol_reserves: u64 = 30_000_000_000;
    let token_reserves: u64 = 1_073_000_000_000_000;
    for net_in in [99u64, 1000, 990_000_000, 29_999_999_999] {
        let tokens = calculate_buy_amount(net_in, sol_reserves, token_reserves).unwrap();
        let gross_back =
            calculate_sell_amount(tokens, token_reserves - tokens, sol_reserves + net_in).unwrap();
        let fee = gross_back / 100;
        assert!(gross_back - fee <= net_in);
    }
}
