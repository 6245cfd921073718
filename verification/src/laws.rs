use vstd::prelude::*;
use vstd::arithmetic::div_mod::{lemma_fundamental_div_mod, lemma_mod_pos_bound};
use crate::instructions::{
    deposit_matches_ratio, net_swap_input, proportional_lp, redeemed_amount, swap_amount_out,
    swap_is_defined,
};
use crate::math::{is_floor_sqrt, proportional_shares, swap_output_bps};

verus! {

/// Floor division brackets its dividend: `q * d <= x < q * d + d` for `q = x / d`.
pub(crate) proof fn lemma_floor_div(x: int, d: int)
    requires
        0 <= x,
        0 < d,
    ensures
        0 <= x / d,
        (x / d) * d <= x,
        x < (x / d) * d + d,
        x < (x / d + 1) * d,
{
    lemma_fundamental_div_mod(x, d);
    lemma_mod_pos_bound(x, d);
    assert(0 <= x / d) by (nonlinear_arith)
        requires
            x == d * (x / d) + x % d,
            0 <= x % d < d,
            0 <= x,
    ;
    assert((x / d) * d == d * (x / d)) by (nonlinear_arith);
    assert((x / d + 1) * d == (x / d) * d + d) by (nonlinear_arith);
}

/// The product of two non-negative integers is non-negative.
pub(crate) proof fn lemma_mul_nonneg(x: int, y: int)
    requires
        0 <= x,
        0 <= y,
    ensures
        0 <= x * y,
{
    assert(0 <= x * y) by (nonlinear_arith)
        requires
            0 <= x,
            0 <= y,
    ;
}

/// `n / (r + n)` of `o`, rounded down, grows with `n`.
pub(crate) proof fn lemma_share_of_reserve_monotone(o: int, r: int, n1: int, n2: int)
    requires
        0 <= o,
        0 <= r,
        0 <= n1 <= n2,
        r + n1 > 0,
    ensures
        (o * n1) / (r + n1) <= (o * n2) / (r + n2),
{
    let d1 = r + n1;
    let d2 = r + n2;
    let q = (o * n1) / d1;
    lemma_mul_nonneg(o, n1);
    lemma_mul_nonneg(o, n2);
    lemma_floor_div(o * n1, d1);
    lemma_floor_div(o * n2, d2);
    // o * n1 * d2 <= o * n2 * d1, since o * n1 * r <= o * n2 * r.
    assert((o * n1) * d2 <= (o * n2) * d1) by (nonlinear_arith)
        requires
            0 <= o,
            0 <= r,
            0 <= n1 <= n2,
            d1 == r + n1,
            d2 == r + n2,
    ;
    assert(q * d2 <= o * n2) by (nonlinear_arith)
        requires
            q * d1 <= o * n1,
            (o * n1) * d2 <= (o * n2) * d1,
            0 <= q,
            d1 > 0,
            d2 > 0,
    ;
    let q2 = (o * n2) / d2;
    assert(q <= q2) by (nonlinear_arith)
        requires
            q * d2 <= o * n2,
            o * n2 < q2 * d2 + d2,
            d2 > 0,
    ;
}

/// A swap never pays out more than the output reserve, and the product of the reserves
/// after the swap is at least the product before it: `x * y = k` never shrinks.
pub proof fn lemma_swap_keeps_product(amount_in: nat, reserve_in: nat, reserve_out: nat)
    requires
        swap_is_defined(amount_in as int, reserve_in as int),
    ensures
        swap_amount_out(amount_in as int, reserve_in as int, reserve_out as int) <= reserve_out,
        (reserve_in + amount_in) * (reserve_out - swap_amount_out(
            amount_in as int,
            reserve_in as int,
            reserve_out as int,
        )) >= reserve_in * reserve_out,
{
    let n = net_swap_input(amount_in as int);
    let o = reserve_out as int;
    let d = reserve_in + n;
    let out = swap_amount_out(amount_in as int, reserve_in as int, reserve_out as int);
    assert(0 <= n <= amount_in);
    lemma_mul_nonneg(o, n);
    lemma_floor_div(o * n, d);
    assert(out == (o * n) / d);
    assert(out <= o) by (nonlinear_arith)
        requires
            out * d <= o * n,
            0 <= n <= d,
            0 <= o,
            0 <= out,
            d > 0,
    ;
    assert((reserve_in + amount_in) * (o - out) >= reserve_in * o) by (nonlinear_arith)
        requires
            out * d <= o * n,
            d == reserve_in + n,
            0 <= n <= amount_in,
            0 <= out <= o,
            0 <= reserve_in,
    ;
}

/// When both reserves are non-zero, a swap leaves part of the output reserve in the pool.
pub proof fn lemma_swap_never_drains(amount_in: nat, reserve_in: nat, reserve_out: nat)
    requires
        reserve_in > 0,
        reserve_out > 0,
    ensures
        swap_amount_out(amount_in as int, reserve_in as int, reserve_out as int) < reserve_out,
{
    let n = net_swap_input(amount_in as int);
    let o = reserve_out as int;
    let d = reserve_in + n;
    let out = swap_amount_out(amount_in as int, reserve_in as int, reserve_out as int);
    lemma_mul_nonneg(o, n);
    lemma_floor_div(o * n, d);
    assert(out < o) by (nonlinear_arith)
        requires
            out * d <= o * n,
            0 <= n < d,
            0 < o,
            0 <= out,
    ;
}

/// A larger input never buys a smaller output.
pub proof fn lemma_swap_output_monotone(
    amount_small: nat,
    amount_large: nat,
    reserve_in: nat,
    reserve_out: nat,
)
    requires
        amount_small <= amount_large,
        swap_is_defined(amount_small as int, reserve_in as int),
    ensures
        swap_amount_out(amount_small as int, reserve_in as int, reserve_out as int)
            <= swap_amount_out(amount_large as int, reserve_in as int, reserve_out as int),
{
    let n1 = net_swap_input(amount_small as int);
    let n2 = net_swap_input(amount_large as int);
    assert(n1 <= n2) by (nonlinear_arith)
        requires
            n1 == amount_small * 997 / 1000,
            n2 == amount_large * 997 / 1000,
            0 <= amount_small <= amount_large,
    ;
    lemma_share_of_reserve_monotone(reserve_out as int, reserve_in as int, n1, n2);
}

/// The fee only ever lowers the output: a swap pays at most what the same input would buy
/// without a fee, `y * dx / (x + dx)` rounded down.
pub proof fn lemma_swap_fee_lowers_output(amount_in: nat, reserve_in: nat, reserve_out: nat)
    requires
        swap_is_defined(amount_in as int, reserve_in as int),
    ensures
        swap_amount_out(amount_in as int, reserve_in as int, reserve_out as int) <= (reserve_out
            * amount_in) / (reserve_in + amount_in),
{
    let n = net_swap_input(amount_in as int);
    assert(0 <= n <= amount_in);
    lemma_share_of_reserve_monotone(reserve_out as int, reserve_in as int, n, amount_in as int);
}

/// The basis-point swap formula also never shrinks the product of the reserves, and never
/// pays out more than the output reserve.
pub proof fn lemma_swap_output_bps_keeps_product(
    input: nat,
    reserve_in: nat,
    reserve_out: nat,
    fee_bps: nat,
)
    requires
        fee_bps <= 10_000,
        reserve_in * 10_000 + input * (10_000 - fee_bps) > 0,
    ensures
        swap_output_bps(input as int, reserve_in as int, reserve_out as int, fee_bps as int)
            <= reserve_out,
        (reserve_in + input) * (reserve_out - swap_output_bps(
            input as int,
            reserve_in as int,
            reserve_out as int,
            fee_bps as int,
        )) >= reserve_in * reserve_out,
{
    let net = input * (10_000 - fee_bps);
    let o = reserve_out as int;
    let d = reserve_in * 10_000 + net;
    let out = swap_output_bps(input as int, reserve_in as int, reserve_out as int, fee_bps as int);
    assert(0 <= net <= input * 10_000) by (nonlinear_arith)
        requires
            net == input * (10_000 - fee_bps),
            0 <= fee_bps <= 10_000,
            0 <= input,
    ;
    lemma_mul_nonneg(o, net);
    lemma_floor_div(o * net, d);
    assert(out == (o * net) / d);
    assert(out <= o) by (nonlinear_arith)
        requires
            out * d <= o * net,
            0 <= net <= d,
            0 <= o,
            0 <= out,
            d > 0,
    ;
    assert((reserve_in * 10_000 + input * 10_000) * (o - out) >= reserve_in * 10_000 * o)
        by (nonlinear_arith)
        requires
            out * d <= o * net,
            d == reserve_in * 10_000 + net,
            0 <= net <= input * 10_000,
            0 <= out <= o,
            0 <= reserve_in,
    ;
    assert((reserve_in + input) * (o - out) >= reserve_in * o) by (nonlinear_arith)
        requires
            (reserve_in * 10_000 + input * 10_000) * (o - out) >= reserve_in * 10_000 * o,
    ;
}

/// A deposit into a pool with shares outstanding mints no more than the deposit's share of
/// either reserve, so the reserves behind each LP token never shrink:
/// `(reserve + amount) * supply >= reserve * (supply + minted)` for both tokens.
pub proof fn lemma_deposit_favors_pool(
    reserve_a: nat,
    reserve_b: nat,
    total_lp_supply: nat,
    amount_a: nat,
    amount_b: nat,
)
    requires
        total_lp_supply > 0,
        reserve_a > 0,
        deposit_matches_ratio(reserve_a as int, reserve_b as int, amount_a as int, amount_b as int),
    ensures
        ({
            let minted = proportional_lp(total_lp_supply as int, amount_a as int, reserve_a as int);
            &&& minted * reserve_a <= total_lp_supply * amount_a
            &&& minted * reserve_b <= total_lp_supply * amount_b
            &&& (reserve_a + amount_a) * total_lp_supply >= reserve_a * (total_lp_supply + minted)
            &&& (reserve_b + amount_b) * total_lp_supply >= reserve_b * (total_lp_supply + minted)
        }),
{
    let s = total_lp_supply as int;
    let ra = reserve_a as int;
    let rb = reserve_b as int;
    let a = amount_a as int;
    let b = amount_b as int;
    lemma_mul_nonneg(s, a);
    let q = (s * a) / ra;
    lemma_floor_div(s * a, ra);
    let minted = proportional_lp(s, a, ra);
    assert(minted * ra <= s * a) by (nonlinear_arith)
        requires
            minted == q,
            q * ra <= s * a,
            ra > 0,
    ;
    assert(minted * rb <= s * b) by (nonlinear_arith)
        requires
            minted * ra <= s * a,
            ra * b == rb * a,
            ra > 0,
            0 <= minted,
            0 <= rb,
            0 <= s,
    ;
    assert((ra + a) * s >= ra * (s + minted)) by (nonlinear_arith)
        requires
            minted * ra <= s * a,
    ;
    assert((rb + b) * s >= rb * (s + minted)) by (nonlinear_arith)
        requires
            minted * rb <= s * b,
    ;
}

/// A deposit that passes the ratio check leaves the reserves in the same ratio as before.
pub proof fn lemma_deposit_keeps_ratio(reserve_a: nat, reserve_b: nat, amount_a: nat, amount_b: nat)
    requires
        deposit_matches_ratio(reserve_a as int, reserve_b as int, amount_a as int, amount_b as int),
    ensures
        (reserve_a + amount_a) * reserve_b == (reserve_b + amount_b) * reserve_a,
{
    assert((reserve_a + amount_a) * reserve_b == (reserve_b + amount_b) * reserve_a)
        by (nonlinear_arith)
        requires
            reserve_a * amount_b == reserve_b * amount_a,
    ;
}

/// A withdrawal pays out no more than the burnt tokens' share of each reserve, so the
/// reserves behind each remaining LP token never shrink; burning at most the supply pays
/// out at most the reserve.
pub proof fn lemma_withdraw_favors_pool(lp_amount: nat, reserve: nat, total_lp_supply: nat)
    requires
        total_lp_supply > 0,
    ensures
        redeemed_amount(lp_amount as int, reserve as int, total_lp_supply as int)
            * total_lp_supply <= lp_amount * reserve,
        lp_amount <= total_lp_supply ==> redeemed_amount(
            lp_amount as int,
            reserve as int,
            total_lp_supply as int,
        ) <= reserve,
        lp_amount <= total_lp_supply ==> (reserve - redeemed_amount(
            lp_amount as int,
            reserve as int,
            total_lp_supply as int,
        )) * total_lp_supply >= reserve * (total_lp_supply - lp_amount),
{
    let s = total_lp_supply as int;
    let l = lp_amount as int;
    let r = reserve as int;
    lemma_mul_nonneg(l, r);
    let q = (l * r) / s;
    lemma_floor_div(l * r, s);
    let out = redeemed_amount(l, r, s);
    assert(out * s <= l * r) by (nonlinear_arith)
        requires
            out == q,
            q * s <= l * r,
            s > 0,
    ;
    if l <= s {
        assert(out <= r) by (nonlinear_arith)
            requires
                out * s <= l * r,
                0 <= l <= s,
                0 <= r,
                s > 0,
        ;
        assert((r - out) * s >= r * (s - l)) by (nonlinear_arith)
            requires
                out * s <= l * r,
        ;
    }
}

/// Depositing into a pool with shares outstanding and then withdrawing exactly the LP tokens
/// that the deposit minted never returns more of either token than was deposited.
pub proof fn lemma_deposit_then_withdraw_returns_at_most_deposit(
    reserve_a: nat,
    reserve_b: nat,
    total_lp_supply: nat,
    amount_a: nat,
    amount_b: nat,
)
    requires
        total_lp_supply > 0,
        reserve_a > 0,
        deposit_matches_ratio(reserve_a as int, reserve_b as int, amount_a as int, amount_b as int),
    ensures
        ({
            let minted = proportional_lp(total_lp_supply as int, amount_a as int, reserve_a as int);
            &&& redeemed_amount(minted, (reserve_a + amount_a) as int, total_lp_supply + minted)
                <= amount_a
            &&& redeemed_amount(minted, (reserve_b + amount_b) as int, total_lp_supply + minted)
                <= amount_b
        }),
{
    let s = total_lp_supply as int;
    let a = amount_a as int;
    let b = amount_b as int;
    let ra = reserve_a as int;
    let rb = reserve_b as int;
    lemma_deposit_favors_pool(reserve_a, reserve_b, total_lp_supply, amount_a, amount_b);
    let minted = proportional_lp(s, a, ra);
    lemma_mul_nonneg(s, a);
    lemma_floor_div(s * a, ra);
    assert(0 <= minted);
    let s2 = s + minted;
    // minted * (ra + a) <= a * (s + minted), and likewise for token B.
    assert(minted * (ra + a) <= a * s2) by (nonlinear_arith)
        requires
            minted * ra <= s * a,
            s2 == s + minted,
    ;
    assert(minted * (rb + b) <= b * s2) by (nonlinear_arith)
        requires
            minted * rb <= s * b,
            s2 == s + minted,
    ;
    lemma_mul_nonneg(minted, ra + a);
    lemma_mul_nonneg(minted, rb + b);
    lemma_floor_div(minted * (ra + a), s2);
    lemma_floor_div(minted * (rb + b), s2);
    let qa = (minted * (ra + a)) / s2;
    let qb = (minted * (rb + b)) / s2;
    assert(qa <= a) by (nonlinear_arith)
        requires
            qa * s2 <= minted * (ra + a),
            minted * (ra + a) <= a * s2,
            s2 > 0,
    ;
    assert(qb <= b) by (nonlinear_arith)
        requires
            qb * s2 <= minted * (rb + b),
            minted * (rb + b) <= b * s2,
            s2 > 0,
    ;
}

/// Burning the whole LP supply pays out the whole reserve.
pub proof fn lemma_full_withdrawal_empties_reserve(reserve: nat, total_lp_supply: nat)
    requires
        total_lp_supply > 0,
    ensures
        redeemed_amount(total_lp_supply as int, reserve as int, total_lp_supply as int) == reserve,
{
    let s = total_lp_supply as int;
    let r = reserve as int;
    assert((s * r) / s == r) by (nonlinear_arith)
        requires
            s > 0,
    ;
}

/// The first deposit into an empty pool, withdrawn in full, returns exactly what was
/// deposited (when it minted any LP tokens at all).
pub proof fn lemma_first_deposit_round_trip(amount_a: nat, amount_b: nat, minted: nat)
    requires
        is_floor_sqrt(minted as int, (amount_a * amount_b) as int),
        minted > 0,
    ensures
        redeemed_amount(minted as int, amount_a as int, minted as int) == amount_a,
        redeemed_amount(minted as int, amount_b as int, minted as int) == amount_b,
{
    lemma_full_withdrawal_empties_reserve(amount_a, minted);
    lemma_full_withdrawal_empties_reserve(amount_b, minted);
}

/// The LP shares of a deposit into a pool with shares are the smaller of the two proportional
/// claims: at most `amount_a * supply / reserve_a`, at most `amount_b * supply / reserve_b`,
/// and equal to one of them.
pub proof fn lemma_deposit_shares_are_smaller_claim(
    amount_a: nat,
    amount_b: nat,
    reserve_a: nat,
    reserve_b: nat,
    total_lp_supply: nat,
)
    requires
        reserve_a > 0,
        reserve_b > 0,
    ensures
        ({
            let shares = proportional_shares(
                amount_a as int,
                amount_b as int,
                reserve_a as int,
                reserve_b as int,
                total_lp_supply as int,
            );
            let claim_a = (amount_a * total_lp_supply) as int / (reserve_a as int);
            let claim_b = (amount_b * total_lp_supply) as int / (reserve_b as int);
            &&& shares <= claim_a
            &&& shares <= claim_b
            &&& (shares == claim_a || shares == claim_b)
        }),
{
}

/// A deposit whose amounts are in exactly the reserve ratio passes the ratio check, and only
/// such a deposit does.
pub proof fn lemma_exact_ratio_passes(reserve_a: nat, reserve_b: nat, amount_a: nat, amount_b: nat)
    ensures
        deposit_matches_ratio(reserve_a as int, reserve_b as int, amount_a as int, amount_b as int)
            <==> reserve_a * amount_b == reserve_b * amount_a,
{
}

/// A proportional deposit mints `supply * amount_a / reserve_a` rounded down: the largest `lp`
/// with `lp * reserve_a <= supply * amount_a`.
pub proof fn lemma_proportional_lp_rounds_down(total_lp_supply: nat, amount_a: nat, reserve_a: nat)
    requires
        reserve_a > 0,
    ensures
        ({
            let lp = proportional_lp(total_lp_supply as int, amount_a as int, reserve_a as int);
            &&& 0 <= lp
            &&& lp * reserve_a <= total_lp_supply * amount_a
            &&& total_lp_supply * amount_a < (lp + 1) * reserve_a
        }),
{
    lemma_mul_nonneg(total_lp_supply as int, amount_a as int);
    lemma_floor_div((total_lp_supply * amount_a) as int, reserve_a as int);
}

/// A withdrawal of `lp` tokens pays `lp * reserve / supply` rounded down: the largest `out`
/// with `out * supply <= lp * reserve`.
pub proof fn lemma_redeemed_amount_rounds_down(lp_amount: nat, reserve: nat, total_lp_supply: nat)
    requires
        total_lp_supply > 0,
    ensures
        ({
            let out = redeemed_amount(lp_amount as int, reserve as int, total_lp_supply as int);
            &&& 0 <= out
            &&& out * total_lp_supply <= lp_amount * reserve
            &&& lp_amount * reserve < (out + 1) * total_lp_supply
        }),
{
    lemma_mul_nonneg(lp_amount as int, reserve as int);
    lemma_floor_div((lp_amount * reserve) as int, total_lp_supply as int);
}

/// A swap is computable exactly when its divisor, the input reserve plus the input after the
/// fee (`amount_in * 997 / 1000`, rounded down), is positive.
pub proof fn lemma_swap_defined_iff_divisor_positive(amount_in: nat, reserve_in: nat)
    ensures
        swap_is_defined(amount_in as int, reserve_in as int) <==> reserve_in + (amount_in * 997)
            / 1000 > 0,
{
}

/// The fee keeps 997 / 1000 of the input, rounded down, and the output is the constant-product
/// payout rounded down: with `net` the input after the fee and `d = reserve_in + net`,
/// `out * d <= reserve_out * net < (out + 1) * d`.
pub proof fn lemma_swap_output_rounds_down(amount_in: nat, reserve_in: nat, reserve_out: nat)
    requires
        reserve_in + (amount_in * 997) / 1000 > 0,
    ensures
        ({
            let net = net_swap_input(amount_in as int);
            let out = swap_amount_out(amount_in as int, reserve_in as int, reserve_out as int);
            let d = reserve_in + net;
            &&& net * 1000 <= amount_in * 997 < (net + 1) * 1000
            &&& 0 <= out
            &&& out * d <= reserve_out * net
            &&& reserve_out * net < (out + 1) * d
        }),
{
    lemma_mul_nonneg(amount_in as int, 997);
    lemma_floor_div((amount_in * 997) as int, 1000);
    let net = net_swap_input(amount_in as int);
    lemma_mul_nonneg(reserve_out as int, net);
    lemma_floor_div(reserve_out * net, reserve_in + net);
}

/// The basis-point swap output is the constant-product payout rounded down: with
/// `net = input * (10000 - fee_bps)` and `d = reserve_in * 10000 + net`,
/// `out * d <= reserve_out * net < (out + 1) * d`.
pub proof fn lemma_swap_output_bps_rounds_down(
    input: nat,
    reserve_in: nat,
    reserve_out: nat,
    fee_bps: nat,
)
    requires
        fee_bps <= 10_000,
        reserve_in * 10_000 + input * (10_000 - fee_bps) > 0,
    ensures
        ({
            let net = input * (10_000 - fee_bps);
            let d = reserve_in * 10_000 + net;
            let out = swap_output_bps(input as int, reserve_in as int, reserve_out as int, fee_bps as int);
            &&& 0 <= out
            &&& out * d <= reserve_out * net
            &&& reserve_out * net < (out + 1) * d
        }),
{
    let net = input * (10_000 - fee_bps);
    lemma_mul_nonneg(input as int, 10_000 - fee_bps);
    lemma_mul_nonneg(reserve_out as int, net);
    lemma_floor_div(reserve_out * net, reserve_in * 10_000 + net);
}

/// The first deposit mints the square root of the product of the amounts, rounded down: the
/// largest `lp` with `lp * lp <= amount_a * amount_b`.
pub proof fn lemma_first_deposit_is_floor_sqrt(amount_a: nat, amount_b: nat, minted: nat)
    requires
        is_floor_sqrt(minted as int, (amount_a * amount_b) as int),
    ensures
        minted * minted <= amount_a * amount_b,
        amount_a * amount_b < (minted + 1) * (minted + 1),
        forall|k: nat| #[trigger] (k * k) <= amount_a * amount_b ==> k <= minted,
{
    assert forall|k: nat| #[trigger] (k * k) <= amount_a * amount_b implies k <= minted by {
        if k > minted {
            assert((minted + 1) * (minted + 1) <= k * k) by (nonlinear_arith)
                requires
                    k >= minted + 1,
                    minted >= 0,
            ;
        }
    }
}

} // verus!
