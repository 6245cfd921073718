use vstd::prelude::*;
use crate::error::ErrorCode;

verus! {

/// `r` is the square root of `n`, rounded down.
pub open spec fn is_floor_sqrt(r: int, n: int) -> bool {
    &&& 0 <= r
    &&& r * r <= n
    &&& n < (r + 1) * (r + 1)
}

/// The smaller of two integers.
pub open spec fn min_int(x: int, y: int) -> int {
    if x <= y { x } else { y }
}

/// Output of a swap of `input` against reserves `(reserve_in, reserve_out)` with a fee of
/// `fee_bps` basis points taken from the input: `y * dx' / (x + dx')` with `dx' = dx * (1 - fee)`,
/// computed over a common denominator of 10 000 and rounded down.
pub open spec fn swap_output_bps(input: int, reserve_in: int, reserve_out: int, fee_bps: int) -> int {
    let net = input * (10_000 - fee_bps);
    (reserve_out * net) / (reserve_in * 10_000 + net)
}

/// LP shares for a deposit into a pool that already has shares: the smaller of the two
/// proportional claims, each rounded down.
pub open spec fn proportional_shares(
    amount_a: int,
    amount_b: int,
    reserve_a: int,
    reserve_b: int,
    total_lp_supply: int,
) -> int {
    min_int((amount_a * total_lp_supply) / reserve_a, (amount_b * total_lp_supply) / reserve_b)
}

/// The product of two `u64` values fits in a `u128`.
pub(crate) proof fn lemma_u64_product_fits(x: u64, y: u64)
    ensures
        0 <= (x as int) * (y as int) <= u128::MAX,
{
    assert(0 <= (x as int) * (y as int) <= u128::MAX) by (nonlinear_arith)
        requires
            x <= u64::MAX,
            y <= u64::MAX,
    ;
}

/// Square root of `n`, rounded down.
pub fn integer_sqrt(n: u128) -> (r: u64)
    ensures
        is_floor_sqrt(r as int, n as int),
        (r as int) * (r as int) <= n,
        (n as int) < (r as int + 1) * (r as int + 1),
{
    // Invariant: lo * lo <= n < hi * hi, found by bisection over [0, 2^64].
    let mut lo: u128 = 0;
    let mut hi: u128 = 0x1_0000_0000_0000_0000;
    assert((hi as int) * (hi as int) > u128::MAX) by (nonlinear_arith)
        requires
            hi == 0x1_0000_0000_0000_0000u128,
    ;
    while hi - lo > 1
        invariant
            lo < hi <= 0x1_0000_0000_0000_0000,
            (lo as int) * (lo as int) <= n,
            (n as int) < (hi as int) * (hi as int),
        decreases hi - lo,
    {
        let mid: u128 = lo + (hi - lo) / 2;
        assert(lo < mid < hi);
        assert((mid as int) * (mid as int) <= u128::MAX) by (nonlinear_arith)
            requires
                mid < 0x1_0000_0000_0000_0000u128,
        ;
        if mid * mid <= n {
            lo = mid;
        } else {
            hi = mid;
        }
    }
    assert(hi == lo + 1);
    lo as u64
}

/// Output of a constant-product swap with a fee of `fee_bps` basis points.
///
/// Fails with `MathOverflow` when the fee exceeds 10 000 basis points or when
/// `reserve_out * net_input` does not fit in 128 bits, and with `MathZeroDivision` when the
/// denominator is zero; otherwise returns the output, rounded down.
pub fn calculate_swap_output(
    input_amount: u64,
    pool_input_reserve: u64,
    pool_output_reserve: u64,
    fee_bps: u16,
) -> (r: Result<u64, ErrorCode>)
    ensures
        fee_bps > 10_000 ==> r == Err::<u64, ErrorCode>(ErrorCode::MathOverflow),
        fee_bps <= 10_000 && pool_output_reserve * (input_amount * (10_000 - fee_bps))
            > u128::MAX ==> r == Err::<u64, ErrorCode>(ErrorCode::MathOverflow),
        fee_bps <= 10_000 && pool_output_reserve * (input_amount * (10_000 - fee_bps))
            <= u128::MAX && pool_input_reserve * 10_000 + input_amount * (10_000 - fee_bps) == 0
            ==> r == Err::<u64, ErrorCode>(ErrorCode::MathZeroDivision),
        fee_bps <= 10_000 && pool_output_reserve * (input_amount * (10_000 - fee_bps))
            <= u128::MAX && pool_input_reserve * 10_000 + input_amount * (10_000 - fee_bps) != 0
            ==> r == Ok::<u64, ErrorCode>(
            swap_output_bps(
                input_amount as int,
                pool_input_reserve as int,
                pool_output_reserve as int,
                fee_bps as int,
            ) as u64,
        ),
        r matches Ok(v) ==> fee_bps <= 10_000 && pool_input_reserve * 10_000 + input_amount * (
        10_000 - fee_bps) > 0 && v == (pool_output_reserve * (input_amount * (10_000 - fee_bps))) / (
        pool_input_reserve * 10_000 + input_amount * (10_000 - fee_bps)),
        r matches Err(e) ==> (e == ErrorCode::MathOverflow && (fee_bps > 10_000 || pool_output_reserve
            * (input_amount * (10_000 - fee_bps)) > u128::MAX)) || (e == ErrorCode::MathZeroDivision
            && fee_bps <= 10_000 && pool_input_reserve * 10_000 + input_amount * (10_000 - fee_bps)
            == 0),
{
    let input_amount_u128 = input_amount as u128;
    let pool_input_reserve_u128 = pool_input_reserve as u128;
    let pool_output_reserve_u128 = pool_output_reserve as u128;

    // The fee is taken from the input: 30 bps leaves 9 970 / 10 000 of it.
    let fee_multiplier = match 10_000u128.checked_sub(fee_bps as u128) {
        Some(m) => m,
        None => return Err(ErrorCode::MathOverflow),
    };
    assert((input_amount as int) * (fee_multiplier as int) <= u128::MAX) by (nonlinear_arith)
        requires
            input_amount <= u64::MAX,
            fee_multiplier <= 10_000,
    ;
    let net_input_amount = match input_amount_u128.checked_mul(fee_multiplier) {
        Some(v) => v,
        None => return Err(ErrorCode::MathOverflow),
    };
    assert(fee_multiplier as int == 10_000 - fee_bps);
    assert(net_input_amount as int == input_amount * (10_000 - fee_bps));
    let numerator = match pool_output_reserve_u128.checked_mul(net_input_amount) {
        Some(v) => v,
        None => return Err(ErrorCode::MathOverflow),
    };
    let scaled_reserve = match pool_input_reserve_u128.checked_mul(10_000) {
        Some(v) => v,
        None => return Err(ErrorCode::MathOverflow),
    };
    assert(scaled_reserve + net_input_amount <= u128::MAX) by (nonlinear_arith)
        requires
            scaled_reserve == pool_input_reserve * 10_000,
            net_input_amount == input_amount * fee_multiplier,
            fee_multiplier <= 10_000,
            pool_input_reserve <= u64::MAX,
            input_amount <= u64::MAX,
    ;
    let denominator = match scaled_reserve.checked_add(net_input_amount) {
        Some(v) => v,
        None => return Err(ErrorCode::MathOverflow),
    };
    let output_amount = match numerator.checked_div(denominator) {
        Some(v) => v,
        None => return Err(ErrorCode::MathZeroDivision),
    };
    proof {
        // The output never exceeds the output reserve, so the cast keeps it whole.
        let o = pool_output_reserve as int;
        let nt = net_input_amount as int;
        let d = denominator as int;
        assert(o * nt <= o * d) by (nonlinear_arith)
            requires
                0 <= nt <= d,
                0 <= o,
        ;
        assert((o * nt) / d <= (o * d) / d) by (nonlinear_arith)
            requires
                0 <= o * nt <= o * d,
                d > 0,
        ;
        assert((o * d) / d == o) by (nonlinear_arith)
            requires
                d > 0,
        ;
    }
    Ok(output_amount as u64)
}

/// LP shares for a deposit into a pool with shares outstanding: the smaller of
/// `amount_a * supply / (reserve_a as int)` and `amount_b * supply / (reserve_b as int)`, each rounded down.
/// Fails with `MathZeroDivision` when either reserve is zero and with `MathOverflow` when the
/// share count does not fit in 64 bits.
pub fn calculate_deposit_shares(
    amount_a: u64,
    amount_b: u64,
    reserve_a: u64,
    reserve_b: u64,
    total_lp_supply: u64,
) -> (r: Result<u64, ErrorCode>)
    ensures
        reserve_a == 0 || reserve_b == 0 ==> r == Err::<u64, ErrorCode>(ErrorCode::MathZeroDivision),
        reserve_a != 0 && reserve_b != 0 && proportional_shares(
            amount_a as int,
            amount_b as int,
            reserve_a as int,
            reserve_b as int,
            total_lp_supply as int,
        ) > u64::MAX ==> r == Err::<u64, ErrorCode>(ErrorCode::MathOverflow),
        reserve_a != 0 && reserve_b != 0 && proportional_shares(
            amount_a as int,
            amount_b as int,
            reserve_a as int,
            reserve_b as int,
            total_lp_supply as int,
        ) <= u64::MAX ==> r == Ok::<u64, ErrorCode>(
            proportional_shares(
                amount_a as int,
                amount_b as int,
                reserve_a as int,
                reserve_b as int,
                total_lp_supply as int,
            ) as u64,
        ),
        r matches Ok(v) ==> reserve_a != 0 && reserve_b != 0 && v <= (amount_a * total_lp_supply)
            / (reserve_a as int) && v <= (amount_b * total_lp_supply) / (reserve_b as int) && (v == (amount_a
            * total_lp_supply) / (reserve_a as int) || v == (amount_b * total_lp_supply) / (reserve_b as int)),
        r matches Err(e) ==> (e == ErrorCode::MathZeroDivision && (reserve_a == 0 || reserve_b == 0))
            || (e == ErrorCode::MathOverflow && reserve_a != 0 && reserve_b != 0 && (amount_a
            * total_lp_supply) / (reserve_a as int) > u64::MAX && (amount_b * total_lp_supply) / (reserve_b as int)
            > u64::MAX),
{
    proof {
        lemma_u64_product_fits(amount_a, total_lp_supply);
        lemma_u64_product_fits(amount_b, total_lp_supply);
    }
    let prod_a = match (amount_a as u128).checked_mul(total_lp_supply as u128) {
        Some(v) => v,
        None => return Err(ErrorCode::MathOverflow),
    };
    let shares_a = match prod_a.checked_div(reserve_a as u128) {
        Some(v) => v,
        None => return Err(ErrorCode::MathZeroDivision),
    };
    let prod_b = match (amount_b as u128).checked_mul(total_lp_supply as u128) {
        Some(v) => v,
        None => return Err(ErrorCode::MathOverflow),
    };
    let shares_b = match prod_b.checked_div(reserve_b as u128) {
        Some(v) => v,
        None => return Err(ErrorCode::MathZeroDivision),
    };
    let final_shares = if shares_a <= shares_b { shares_a } else { shares_b };
    if final_shares > u64::MAX as u128 {
        return Err(ErrorCode::MathOverflow);
    }
    Ok(final_shares as u64)
}

} // verus!
