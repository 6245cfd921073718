use solana_amm::error::ErrorCode;
use solana_amm::math::{calculate_deposit_shares, calculate_swap_output, integer_sqrt};

#[test]
fn swap_output_with_fee_in_basis_points() {
    assert_eq!(calculate_swap_output(100_000, 1_000_000, 2_000_000, 30), Ok(181_322));
    assert_eq!(calculate_swap_output(100_000, 1_000_000, 2_000_000, 0), Ok(181_818));
    assert_eq!(calculate_swap_output(1_000, 1_000_000, 1_000_000, 30), Ok(996));
    assert_eq!(calculate_swap_output(1_000, 1_000_000, 1_000_000, 10_000), Ok(0));
}

#[test]
fn swap_output_fee_above_hundred_percent_overflows() {
    assert_eq!(calculate_swap_output(1_000, 1_000_000, 1_000_000, 10_001), Err(ErrorCode::MathOverflow));
}

#[test]
fn swap_output_numerator_overflow() {
    assert_eq!(calculate_swap_output(u64::MAX, 1, u64::MAX, 30), Err(ErrorCode::MathOverflow));
}

#[test]
fn swap_output_zero_denominator() {
    assert_eq!(calculate_swap_output(0, 0, 1_000, 30), Err(ErrorCode::MathZeroDivision));
    assert_eq!(calculate_swap_output(5, 0, 1_000, 10_000), Err(ErrorCode::MathZeroDivision));
}

#[test]
fn deposit_shares_take_smaller_claim() {
    assert_eq!(calculate_deposit_shares(10, 30, 100, 200, 1_000), Ok(100));
    assert_eq!(calculate_deposit_shares(30, 10, 100, 200, 1_000), Ok(50));
    assert_eq!(calculate_deposit_shares(1, 1, 3, 3, 10), Ok(3));
}

#[test]
fn deposit_shares_beyond_64_bits_overflow() {
    assert_eq!(calculate_deposit_shares(2, 2, 1, 1, u64::MAX), Err(ErrorCode::MathOverflow));
    assert_eq!(calculate_deposit_shares(1 << 32, 1 << 32, 1, 1, 1 << 32), Err(ErrorCode::MathOverflow));
    assert_eq!(calculate_deposit_shares(1, 2, 1, 1, u64::MAX), Ok(u64::MAX));
}

#[test]
fn deposit_shares_zero_reserve() {
    assert_eq!(calculate_deposit_shares(1, 1, 0, 5, 10), Err(ErrorCode::MathZeroDivision));
    assert_eq!(calculate_deposit_shares(1, 1, 5, 0, 10), Err(ErrorCode::MathZeroDivision));
}

#[test]
fn square_root_rounds_down() {
    assert_eq!(integer_sqrt(0), 0);
    assert_eq!(integer_sqrt(1), 1);
    assert_eq!(integer_sqrt(15), 3);
    assert_eq!(integer_sqrt(16), 4);
    assert_eq!(integer_sqrt(u128::MAX), u64::MAX);
    assert_eq!(integer_sqrt(10u128.pow(16)), 100_000_000);
}
