use ondrix_escrow::error::{EscrowError, ProgramError};
use ondrix_escrow::pricing::{
    calculate_tokens_for_sol, checked_mul_div, CHAINLINK_USD_DECIMALS,
    MAX_SOL_INVESTMENT_LAMPORTS, MIN_SOL_INVESTMENT_LAMPORTS, PRICE_STALENESS_THRESHOLD,
    PRICE_UNITS_PER_CENT, SOL_LAMPORTS, TOKEN_DECIMALS, TOKEN_PRICE_USD_CENTS, TOKEN_UNIT,
    USD_CENTS_SCALE,
};

fn overflow() -> ProgramError {
    ProgramError::Custom(3)
}

#[test]
fn constants_have_their_values() {
    assert_eq!(TOKEN_PRICE_USD_CENTS, 10);
    assert_eq!(USD_CENTS_SCALE, 100);
    assert_eq!(CHAINLINK_USD_DECIMALS, 8);
    assert_eq!(TOKEN_DECIMALS, 9);
    assert_eq!(SOL_LAMPORTS, 1_000_000_000);
    assert_eq!(PRICE_STALENESS_THRESHOLD, 300);
    assert_eq!(MIN_SOL_INVESTMENT_LAMPORTS, 1_000_000);
    assert_eq!(MAX_SOL_INVESTMENT_LAMPORTS, 10_000_000_000_000);
    assert_eq!(PRICE_UNITS_PER_CENT, 10u64.pow(CHAINLINK_USD_DECIMALS as u32 - 2));
    assert_eq!(TOKEN_UNIT, 10u64.pow(TOKEN_DECIMALS as u32));
}

#[test]
fn mul_div_rounds_toward_zero() {
    assert_eq!(checked_mul_div(7, 3, 2), Ok(10));
    assert_eq!(checked_mul_div(1, 1, 2), Ok(0));
    assert_eq!(checked_mul_div(0, u64::MAX, 1), Ok(0));
    assert_eq!(checked_mul_div(10, 10, 100), Ok(1));
    assert_eq!(checked_mul_div(10, 10, 101), Ok(0));
}

#[test]
fn mul_div_uses_a_wide_product() {
    assert_eq!(checked_mul_div(u64::MAX, u64::MAX, u64::MAX), Ok(u64::MAX));
    assert_eq!(checked_mul_div(u64::MAX, 2, 2), Ok(u64::MAX));
    assert_eq!(
        checked_mul_div(1_000_000_000_000, 1_000_000_000_000, 1_000_000_000),
        Ok(1_000_000_000_000_000)
    );
}

#[test]
fn mul_div_refuses_a_zero_divisor() {
    assert_eq!(checked_mul_div(1, 1, 0), Err(overflow()));
    assert_eq!(checked_mul_div(0, 0, 0), Err(overflow()));
}

#[test]
fn mul_div_refuses_a_quotient_beyond_64_bits() {
    assert_eq!(checked_mul_div(u64::MAX, 2, 1), Err(overflow()));
    assert_eq!(checked_mul_div(u64::MAX, u64::MAX, 1), Err(overflow()));
    assert_eq!(checked_mul_div(1 << 63, 2, 1), Err(overflow()));
    assert_eq!(checked_mul_div((1 << 63) - 1, 2, 1), Ok(u64::MAX - 1));
}

#[test]
fn overflow_is_the_amount_overflow_kind() {
    assert_eq!(overflow(), ProgramError::from(EscrowError::AmountOverflow));
}

#[test]
fn one_sol_at_217_dollars_buys_2170_tokens() {
    // 1e9 lamports * 217e8 / 1e9 = 217e8 price units = 21_700 cents;
    // 21_700 cents * 1e9 / 10 cents per token = 2_170 tokens of 1e9 units.
    assert_eq!(calculate_tokens_for_sol(1_000_000_000, 21_700_000_000), Ok(2_170_000_000_000));
}

#[test]
fn tokens_follow_the_three_steps() {
    // 1_500_000 lamports at $217: 32_550_000 price units, 32 cents, 3.2 tokens.
    assert_eq!(calculate_tokens_for_sol(1_500_000, 21_700_000_000), Ok(3_200_000_000));
    // The smallest default payment at $217: 21 cents.
    assert_eq!(calculate_tokens_for_sol(1_000_000, 21_700_000_000), Ok(2_100_000_000));
    // Under one cent nothing is issued.
    assert_eq!(calculate_tokens_for_sol(46, 21_700_000_000), Ok(0));
    assert_eq!(calculate_tokens_for_sol(46_083, 21_700_000_000), Ok(100_000_000));
    assert_eq!(calculate_tokens_for_sol(46_082, 21_700_000_000), Ok(0));
}

#[test]
fn tokens_are_zero_for_no_payment_or_no_price() {
    assert_eq!(calculate_tokens_for_sol(0, 21_700_000_000), Ok(0));
    assert_eq!(calculate_tokens_for_sol(1_000_000_000, 0), Ok(0));
    assert_eq!(calculate_tokens_for_sol(0, 0), Ok(0));
}

#[test]
fn tokens_beyond_64_bits_are_refused() {
    // 1.8446744073e11 cents is the most that fits: times 1e8 it is under 2^64.
    assert_eq!(calculate_tokens_for_sol(u64::MAX, u64::MAX), Err(overflow()));
    assert_eq!(calculate_tokens_for_sol(u64::MAX, 1_000_000_000), Err(overflow()));
    // 184_467_440_737 cents fit: value 184_467_440_737_000_000 price units.
    assert_eq!(
        calculate_tokens_for_sol(184_467_440_737_000_000, 1_000_000_000),
        Ok(18_446_744_073_700_000_000)
    );
    assert_eq!(
        calculate_tokens_for_sol(184_467_440_738_000_000, 1_000_000_000),
        Err(overflow())
    );
}

#[test]
fn tokens_do_not_decrease_with_the_payment() {
    let price = 21_700_000_000;
    let payments = [0u64, 1, 46, 46_082, 46_083, 1_000_000, 1_000_001, 999_999_999, 1_000_000_000];
    let mut last = 0u64;
    for payment in payments {
        let tokens = calculate_tokens_for_sol(payment, price).unwrap();
        assert!(tokens >= last);
        last = tokens;
    }
}

#[test]
fn tokens_do_not_decrease_with_the_price() {
    let payment = 1_000_000_000;
    let prices = [0u64, 1, 999_999, 1_000_000, 100_000_000, 21_700_000_000, 21_700_000_001];
    let mut last = 0u64;
    for price in prices {
        let tokens = calculate_tokens_for_sol(payment, price).unwrap();
        assert!(tokens >= last);
        last = tokens;
    }
}

#[test]
fn tokens_are_never_worth_more_than_the_payment() {
    let cases = [(1_500_000u64, 21_700_000_000u64), (46_083, 21_700_000_000), (7, 3), (999, 123_456_789)];
    for (payment, price) in cases {
        let tokens = calculate_tokens_for_sol(payment, price).unwrap() as u128;
        let worth = tokens * 10 * 1_000_000 * 1_000_000_000;
        let paid = payment as u128 * price as u128 * 1_000_000_000;
        assert!(worth <= paid);
    }
}
