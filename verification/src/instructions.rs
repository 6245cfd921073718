use vstd::prelude::*;
use crate::accounts::{DepositLiquidity, InitializePool, PoolState, Swap, WithdrawLiquidity};
use crate::error::{AmmError, DepositError};
use crate::key::same_key;
use crate::math::{integer_sqrt, is_floor_sqrt, lemma_u64_product_fits};

verus! {

/// The token movements of an accepted deposit: `amount_a` and `amount_b` go from the
/// depositor to the vaults, and `lp_to_mint` new LP tokens go to the depositor.
#[derive(Clone, Copy, Debug, PartialEq, Eq, Structural)]
pub struct DepositPlan {
    pub amount_a: u64,
    pub amount_b: u64,
    pub lp_to_mint: u64,
}

/// The token movements of an accepted withdrawal: `lp_to_burn` LP tokens are burnt, and
/// `amount_a_out` and `amount_b_out` go from the vaults to the holder.
#[derive(Clone, Copy, Debug, PartialEq, Eq, Structural)]
pub struct WithdrawPlan {
    pub lp_to_burn: u64,
    pub amount_a_out: u64,
    pub amount_b_out: u64,
}

/// The token movements of an accepted swap: `amount_in` goes from the trader to the input
/// vault, and `amount_out` from the output vault to the trader.
#[derive(Clone, Copy, Debug, PartialEq, Eq, Structural)]
pub struct SwapPlan {
    pub amount_in: u64,
    pub amount_out: u64,
}

/// The part of a swap's input that trades after the 0.3% fee: `997 / 1000` of it, rounded down.
pub open spec fn net_swap_input(amount_in: int) -> int {
    amount_in * 997 / 1000
}

/// Constant-product output of a swap: `y * dx' / (x + dx')` with `dx'` the input after the
/// fee, rounded down.
pub open spec fn swap_amount_out(amount_in: int, reserve_in: int, reserve_out: int) -> int {
    let net = net_swap_input(amount_in);
    (reserve_out * net) / (reserve_in + net)
}

/// The swap's divisor `reserve_in + dx'` is not zero.
pub open spec fn swap_is_defined(amount_in: int, reserve_in: int) -> bool {
    reserve_in + net_swap_input(amount_in) > 0
}

/// LP tokens for a deposit of `amount_a` into a pool with shares outstanding:
/// `supply * amount_a / reserve_a`, rounded down.
pub open spec fn proportional_lp(total_lp_supply: int, amount_a: int, reserve_a: int) -> int {
    (total_lp_supply * amount_a) / reserve_a
}

/// The amount of one reserve that `lp_amount` LP tokens redeem:
/// `lp_amount * reserve / supply`, rounded down.
pub open spec fn redeemed_amount(lp_amount: int, reserve: int, total_lp_supply: int) -> int {
    (lp_amount * reserve) / total_lp_supply
}

/// A deposit matches the pool's ratio when `reserve_a * amount_b == reserve_b * amount_a`.
pub open spec fn deposit_matches_ratio(
    reserve_a: int,
    reserve_b: int,
    amount_a: int,
    amount_b: int,
) -> bool {
    reserve_a * amount_b == reserve_b * amount_a
}

/// The first account check that a deposit fails, in the order the accounts are checked: the
/// LP mint must be the pool's (`InvalidVault`), then each vault (the generic constraint error).
pub open spec fn deposit_account_error(accounts: DepositLiquidity) -> Option<DepositError> {
    if !same_key(accounts.lp_mint.key, accounts.pool_state.lp_mint) {
        Some(DepositError::Amm(AmmError::InvalidVault))
    } else if !same_key(accounts.token_a_vault.key, accounts.pool_state.token_a_vault) {
        Some(DepositError::ConstraintRaw)
    } else if !same_key(accounts.token_b_vault.key, accounts.pool_state.token_b_vault) {
        Some(DepositError::ConstraintRaw)
    } else {
        None
    }
}

/// The withdrawal names the pool's LP mint and the pool's two vaults.
pub open spec fn withdraw_accounts_valid(accounts: WithdrawLiquidity) -> bool {
    &&& same_key(accounts.lp_mint.key, accounts.pool_state.lp_mint)
    &&& same_key(accounts.token_vault_a.key, accounts.pool_state.token_a_vault)
    &&& same_key(accounts.token_vault_b.key, accounts.pool_state.token_b_vault)
}

/// `key` is one of the pool's two vaults.
pub open spec fn is_pool_vault(pool: PoolState, key: crate::key::AccountKey) -> bool {
    same_key(key, pool.token_a_vault) || same_key(key, pool.token_b_vault)
}

/// The first account check that a swap fails, in the order the accounts are checked: each
/// vault must be one of the pool's (`InvalidVault`), and they must differ (`IdenticalVaults`).
pub open spec fn swap_account_error(accounts: Swap) -> Option<AmmError> {
    if !is_pool_vault(accounts.pool_state, accounts.token_vault_in.key) {
        Some(AmmError::InvalidVault)
    } else if !is_pool_vault(accounts.pool_state, accounts.token_vault_out.key) {
        Some(AmmError::InvalidVault)
    } else if same_key(accounts.token_vault_out.key, accounts.token_vault_in.key) {
        Some(AmmError::IdenticalVaults)
    } else {
        None
    }
}

/// Creates a pool: the new pool state records the creator, the two vaults, the LP mint and
/// the bump seed of the pool's address.
pub fn initialize_pool(accounts: &InitializePool, bump: u8) -> (r: Result<PoolState, AmmError>)
    ensures
        r == Ok::<PoolState, AmmError>(
            PoolState {
                initializer: accounts.initializer,
                token_a_vault: accounts.token_a_vault,
                token_b_vault: accounts.token_b_vault,
                lp_mint: accounts.lp_mint,
                bump,
            },
        ),
{
    Ok(
        PoolState {
            initializer: accounts.initializer,
            token_a_vault: accounts.token_a_vault,
            token_b_vault: accounts.token_b_vault,
            lp_mint: accounts.lp_mint,
            bump,
        },
    )
}

/// Decides a deposit of `amount_a` of token A and `amount_b` of token B.
///
/// The LP mint must be the pool's (else `InvalidVault`), and so must both vaults (else the
/// generic constraint error). Into an empty pool (no LP tokens yet) the depositor receives the
/// geometric mean of the two amounts, rounded down. Otherwise the amounts must match the
/// reserve ratio exactly (else `InvalidRatio`), and the depositor receives
/// `supply * amount_a / reserve_a`, rounded down; an empty reserve of A gives
/// `MathZeroDivision` and a share count beyond 64 bits gives `MathOverflow`.
pub fn deposit_liquidity(accounts: &DepositLiquidity, amount_a: u64, amount_b: u64) -> (r: Result<
    DepositPlan,
    DepositError,
>)
    ensures
        deposit_account_error(*accounts) matches Some(e) ==> r == Err::<DepositPlan, DepositError>(
            e,
        ),
        deposit_account_error(*accounts) is None && accounts.lp_mint.supply == 0 ==> (r matches Ok(
            p,
        ) && p.amount_a == amount_a && p.amount_b == amount_b && is_floor_sqrt(
            p.lp_to_mint as int,
            amount_a * amount_b,
        )),
        deposit_account_error(*accounts) is None && accounts.lp_mint.supply != 0
            && !deposit_matches_ratio(
            accounts.token_a_vault.amount as int,
            accounts.token_b_vault.amount as int,
            amount_a as int,
            amount_b as int,
        ) ==> r == Err::<DepositPlan, DepositError>(DepositError::Amm(AmmError::InvalidRatio)),
        deposit_account_error(*accounts) is None && accounts.lp_mint.supply != 0
            && deposit_matches_ratio(
            accounts.token_a_vault.amount as int,
            accounts.token_b_vault.amount as int,
            amount_a as int,
            amount_b as int,
        ) && accounts.token_a_vault.amount == 0 ==> r == Err::<DepositPlan, DepositError>(
            DepositError::Amm(AmmError::MathZeroDivision),
        ),
        deposit_account_error(*accounts) is None && accounts.lp_mint.supply != 0
            && deposit_matches_ratio(
            accounts.token_a_vault.amount as int,
            accounts.token_b_vault.amount as int,
            amount_a as int,
            amount_b as int,
        ) && accounts.token_a_vault.amount != 0 && proportional_lp(
            accounts.lp_mint.supply as int,
            amount_a as int,
            accounts.token_a_vault.amount as int,
        ) > u64::MAX ==> r == Err::<DepositPlan, DepositError>(
            DepositError::Amm(AmmError::MathOverflow),
        ),
        deposit_account_error(*accounts) is None && accounts.lp_mint.supply != 0
            && deposit_matches_ratio(
            accounts.token_a_vault.amount as int,
            accounts.token_b_vault.amount as int,
            amount_a as int,
            amount_b as int,
        ) && accounts.token_a_vault.amount != 0 && proportional_lp(
            accounts.lp_mint.supply as int,
            amount_a as int,
            accounts.token_a_vault.amount as int,
        ) <= u64::MAX ==> r == Ok::<DepositPlan, DepositError>(
            DepositPlan {
                amount_a,
                amount_b,
                lp_to_mint: proportional_lp(
                    accounts.lp_mint.supply as int,
                    amount_a as int,
                    accounts.token_a_vault.amount as int,
                ) as u64,
            },
        ),
        r matches Ok(p) ==> p.amount_a == amount_a && p.amount_b == amount_b && (
        accounts.lp_mint.supply == 0 ==> (p.lp_to_mint as int) * (p.lp_to_mint as int) <= amount_a
            * amount_b && amount_a * amount_b < (p.lp_to_mint as int + 1) * (p.lp_to_mint as int
            + 1)) && (accounts.lp_mint.supply != 0 ==> accounts.token_a_vault.amount * amount_b
            == accounts.token_b_vault.amount * amount_a && accounts.token_a_vault.amount != 0
            && p.lp_to_mint == (accounts.lp_mint.supply * amount_a) / (accounts.token_a_vault.amount as int)),
        r matches Err(e) ==> (e == DepositError::Amm(AmmError::InvalidVault)
            && accounts.lp_mint.key.bytes@ != accounts.pool_state.lp_mint.bytes@) || (e
            == DepositError::ConstraintRaw && (accounts.token_a_vault.key.bytes@
            != accounts.pool_state.token_a_vault.bytes@ || accounts.token_b_vault.key.bytes@
            != accounts.pool_state.token_b_vault.bytes@)) || (e == DepositError::Amm(
            AmmError::InvalidRatio,
        ) && accounts.lp_mint.supply != 0 && accounts.token_a_vault.amount * amount_b
            != accounts.token_b_vault.amount * amount_a) || (e == DepositError::Amm(
            AmmError::MathZeroDivision,
        ) && accounts.lp_mint.supply != 0 && accounts.token_a_vault.amount == 0) || (e
            == DepositError::Amm(AmmError::MathOverflow) && accounts.lp_mint.supply != 0
            && accounts.token_a_vault.amount != 0 && (accounts.lp_mint.supply * amount_a)
            / (accounts.token_a_vault.amount as int) > u64::MAX),
        accounts.lp_mint.key.bytes@ != accounts.pool_state.lp_mint.bytes@ ==> r == Err::<
            DepositPlan,
            DepositError,
        >(DepositError::Amm(AmmError::InvalidVault)),
        accounts.lp_mint.key.bytes@ == accounts.pool_state.lp_mint.bytes@ && (accounts.token_a_vault.key.bytes@
            != accounts.pool_state.token_a_vault.bytes@ || accounts.token_b_vault.key.bytes@
            != accounts.pool_state.token_b_vault.bytes@) ==> r == Err::<DepositPlan, DepositError>(
            DepositError::ConstraintRaw,
        ),
        accounts.lp_mint.key.bytes@ == accounts.pool_state.lp_mint.bytes@ && accounts.token_a_vault.key.bytes@
            == accounts.pool_state.token_a_vault.bytes@ && accounts.token_b_vault.key.bytes@
            == accounts.pool_state.token_b_vault.bytes@ && accounts.lp_mint.supply != 0
            && accounts.token_a_vault.amount * amount_b != accounts.token_b_vault.amount * amount_a
            ==> r == Err::<DepositPlan, DepositError>(DepositError::Amm(AmmError::InvalidRatio)),
{
    let pool = &accounts.pool_state;
    if !pool.is_lp_mint(&accounts.lp_mint.key) {
        return Err(DepositError::Amm(AmmError::InvalidVault));
    }
    if !pool.is_token_a_vault(&accounts.token_a_vault.key) {
        return Err(DepositError::ConstraintRaw);
    }
    if !pool.is_token_b_vault(&accounts.token_b_vault.key) {
        return Err(DepositError::ConstraintRaw);
    }
    let reserve_a = accounts.token_a_vault.amount;
    let reserve_b = accounts.token_b_vault.amount;
    let total_lp_supply = accounts.lp_mint.supply;
    proof {
        lemma_u64_product_fits(amount_a, amount_b);
        lemma_u64_product_fits(reserve_a, amount_b);
        lemma_u64_product_fits(reserve_b, amount_a);
        lemma_u64_product_fits(total_lp_supply, amount_a);
    }

    let lp_to_mint: u64;
    if total_lp_supply == 0 {
        // First deposit: the geometric mean of the two amounts.
        lp_to_mint = integer_sqrt((amount_a as u128) * (amount_b as u128));
    } else {
        // Later deposits must keep the reserve ratio exactly.
        let pool_ratio = (reserve_a as u128) * (amount_b as u128);
        let deposit_ratio = (reserve_b as u128) * (amount_a as u128);
        if pool_ratio != deposit_ratio {
            return Err(DepositError::Amm(AmmError::InvalidRatio));
        }
        if reserve_a == 0 {
            return Err(DepositError::Amm(AmmError::MathZeroDivision));
        }
        let minted = (total_lp_supply as u128) * (amount_a as u128) / (reserve_a as u128);
        if minted > u64::MAX as u128 {
            return Err(DepositError::Amm(AmmError::MathOverflow));
        }
        lp_to_mint = minted as u64;
    }
    Ok(DepositPlan { amount_a, amount_b, lp_to_mint })
}

/// Decides a withdrawal of `lp_amount` LP tokens.
///
/// The LP mint and both vaults must be the pool's (else `InvalidVault`). Fails with
/// `InvalidVault` when no LP tokens are outstanding and with `InvalidRatio` when `lp_amount`
/// is zero; otherwise the holder receives `lp_amount / supply` of each reserve, rounded down
/// (`MathOverflow` if that does not fit in 64 bits). The plan burns the LP tokens before any
/// payout, so a burn of more than the holder has (and so of more than the supply) is refused
/// by the token program before a payout moves; a burn of at most the supply never pays out
/// more than a reserve.
pub fn withdraw_liquidity(accounts: &WithdrawLiquidity, lp_amount: u64) -> (r: Result<
    WithdrawPlan,
    AmmError,
>)
    ensures
        !withdraw_accounts_valid(*accounts) ==> r == Err::<WithdrawPlan, AmmError>(
            AmmError::InvalidVault,
        ),
        withdraw_accounts_valid(*accounts) && accounts.lp_mint.supply == 0 ==> r == Err::<
            WithdrawPlan,
            AmmError,
        >(AmmError::InvalidVault),
        withdraw_accounts_valid(*accounts) && accounts.lp_mint.supply != 0 && lp_amount == 0
            ==> r == Err::<WithdrawPlan, AmmError>(AmmError::InvalidRatio),
        withdraw_accounts_valid(*accounts) && accounts.lp_mint.supply != 0 && lp_amount != 0 && (
        redeemed_amount(
            lp_amount as int,
            accounts.token_vault_a.amount as int,
            accounts.lp_mint.supply as int,
        ) > u64::MAX || redeemed_amount(
            lp_amount as int,
            accounts.token_vault_b.amount as int,
            accounts.lp_mint.supply as int,
        ) > u64::MAX) ==> r == Err::<WithdrawPlan, AmmError>(AmmError::MathOverflow),
        withdraw_accounts_valid(*accounts) && accounts.lp_mint.supply != 0 && lp_amount != 0
            && redeemed_amount(
            lp_amount as int,
            accounts.token_vault_a.amount as int,
            accounts.lp_mint.supply as int,
        ) <= u64::MAX && redeemed_amount(
            lp_amount as int,
            accounts.token_vault_b.amount as int,
            accounts.lp_mint.supply as int,
        ) <= u64::MAX ==> r == Ok::<WithdrawPlan, AmmError>(
            WithdrawPlan {
                lp_to_burn: lp_amount,
                amount_a_out: redeemed_amount(
                    lp_amount as int,
                    accounts.token_vault_a.amount as int,
                    accounts.lp_mint.supply as int,
                ) as u64,
                amount_b_out: redeemed_amount(
                    lp_amount as int,
                    accounts.token_vault_b.amount as int,
                    accounts.lp_mint.supply as int,
                ) as u64,
            },
        ),
        lp_amount <= accounts.lp_mint.supply ==> (r matches Ok(p) ==> p.amount_a_out
            <= accounts.token_vault_a.amount && p.amount_b_out <= accounts.token_vault_b.amount),
        r matches Ok(p) ==> accounts.lp_mint.supply != 0 && p.lp_to_burn == lp_amount
            && p.amount_a_out == (lp_amount * accounts.token_vault_a.amount)
            / (accounts.lp_mint.supply as int) && p.amount_b_out == (lp_amount
            * accounts.token_vault_b.amount) / (accounts.lp_mint.supply as int),
        r matches Err(e) ==> (e == AmmError::InvalidVault && (accounts.lp_mint.key.bytes@
            != accounts.pool_state.lp_mint.bytes@ || accounts.token_vault_a.key.bytes@
            != accounts.pool_state.token_a_vault.bytes@ || accounts.token_vault_b.key.bytes@
            != accounts.pool_state.token_b_vault.bytes@ || accounts.lp_mint.supply == 0)) || (e
            == AmmError::InvalidRatio && lp_amount == 0) || (e == AmmError::MathOverflow
            && accounts.lp_mint.supply != 0 && ((lp_amount * accounts.token_vault_a.amount)
            / (accounts.lp_mint.supply as int) > u64::MAX || (lp_amount * accounts.token_vault_b.amount)
            / (accounts.lp_mint.supply as int) > u64::MAX)),
        (accounts.lp_mint.key.bytes@ != accounts.pool_state.lp_mint.bytes@
            || accounts.token_vault_a.key.bytes@ != accounts.pool_state.token_a_vault.bytes@
            || accounts.token_vault_b.key.bytes@ != accounts.pool_state.token_b_vault.bytes@
            || accounts.lp_mint.supply == 0) ==> r == Err::<WithdrawPlan, AmmError>(
            AmmError::InvalidVault,
        ),
        accounts.lp_mint.key.bytes@ == accounts.pool_state.lp_mint.bytes@ && accounts.token_vault_a.key.bytes@
            == accounts.pool_state.token_a_vault.bytes@ && accounts.token_vault_b.key.bytes@
            == accounts.pool_state.token_b_vault.bytes@ && accounts.lp_mint.supply != 0 && lp_amount
            == 0 ==> r == Err::<WithdrawPlan, AmmError>(AmmError::InvalidRatio),
{
    let pool = &accounts.pool_state;
    if !pool.is_lp_mint(&accounts.lp_mint.key) {
        return Err(AmmError::InvalidVault);
    }
    if !pool.is_token_a_vault(&accounts.token_vault_a.key) {
        return Err(AmmError::InvalidVault);
    }
    if !pool.is_token_b_vault(&accounts.token_vault_b.key) {
        return Err(AmmError::InvalidVault);
    }
    let total_lp_supply = accounts.lp_mint.supply;
    let reserve_a = accounts.token_vault_a.amount;
    let reserve_b = accounts.token_vault_b.amount;

    if total_lp_supply == 0 {
        return Err(AmmError::InvalidVault);
    }
    if lp_amount == 0 {
        return Err(AmmError::InvalidRatio);
    }
    proof {
        lemma_u64_product_fits(lp_amount, reserve_a);
        lemma_u64_product_fits(lp_amount, reserve_b);
    }
    let out_a = (lp_amount as u128) * (reserve_a as u128) / (total_lp_supply as u128);
    let out_b = (lp_amount as u128) * (reserve_b as u128) / (total_lp_supply as u128);
    if out_a > u64::MAX as u128 || out_b > u64::MAX as u128 {
        return Err(AmmError::MathOverflow);
    }
    proof {
        if lp_amount <= total_lp_supply {
            lemma_share_within_reserve(lp_amount as int, reserve_a as int, total_lp_supply as int);
            lemma_share_within_reserve(lp_amount as int, reserve_b as int, total_lp_supply as int);
        }
    }
    Ok(WithdrawPlan { lp_to_burn: lp_amount, amount_a_out: out_a as u64, amount_b_out: out_b as u64 })
}

/// `lp / supply` of a reserve, rounded down, is at most the reserve when `lp <= supply`.
proof fn lemma_share_within_reserve(lp: int, reserve: int, supply: int)
    requires
        0 <= lp <= supply,
        0 < supply,
        0 <= reserve,
    ensures
        0 <= (lp * reserve) / supply <= reserve,
{
    assert(0 <= (lp * reserve) / supply <= reserve) by (nonlinear_arith)
        requires
            0 <= lp <= supply,
            0 < supply,
            0 <= reserve,
    {
        assert(lp * reserve <= supply * reserve);
        assert((lp * reserve) / supply <= (supply * reserve) / supply);
        assert((supply * reserve) / supply == reserve);
    }
}

/// Decides a swap of `amount_in` against the pool, keeping 0.3% of the input as the LP fee.
///
/// Both vaults must be the pool's (else `InvalidVault`) and must differ (else
/// `IdenticalVaults`). An empty input vault with an input that the fee reduces to nothing
/// gives `MathZeroDivision`; an output below `min_amount_out` gives `SlippageExceeded`.
pub fn swap(accounts: &Swap, amount_in: u64, min_amount_out: u64) -> (r: Result<SwapPlan, AmmError>)
    ensures
        swap_account_error(*accounts) matches Some(e) ==> r == Err::<SwapPlan, AmmError>(e),
        swap_account_error(*accounts) is None && !swap_is_defined(
            amount_in as int,
            accounts.token_vault_in.amount as int,
        ) ==> r == Err::<SwapPlan, AmmError>(AmmError::MathZeroDivision),
        swap_account_error(*accounts) is None && swap_is_defined(
            amount_in as int,
            accounts.token_vault_in.amount as int,
        ) && swap_amount_out(
            amount_in as int,
            accounts.token_vault_in.amount as int,
            accounts.token_vault_out.amount as int,
        ) >= min_amount_out ==> r == Ok::<SwapPlan, AmmError>(
            SwapPlan {
                amount_in,
                amount_out: swap_amount_out(
                    amount_in as int,
                    accounts.token_vault_in.amount as int,
                    accounts.token_vault_out.amount as int,
                ) as u64,
            },
        ),
        swap_account_error(*accounts) is None && swap_is_defined(
            amount_in as int,
            accounts.token_vault_in.amount as int,
        ) && swap_amount_out(
            amount_in as int,
            accounts.token_vault_in.amount as int,
            accounts.token_vault_out.amount as int,
        ) < min_amount_out ==> r == Err::<SwapPlan, AmmError>(AmmError::SlippageExceeded),
        r matches Ok(p) ==> p.amount_in == amount_in && accounts.token_vault_in.amount + (amount_in
            * 997) / 1000 > 0 && p.amount_out == (accounts.token_vault_out.amount * ((amount_in
            * 997) / 1000)) / (accounts.token_vault_in.amount + (amount_in * 997) / 1000)
            && p.amount_out >= min_amount_out,
        r matches Err(e) ==> (e == AmmError::InvalidVault && ((accounts.token_vault_in.key.bytes@
            != accounts.pool_state.token_a_vault.bytes@ && accounts.token_vault_in.key.bytes@
            != accounts.pool_state.token_b_vault.bytes@) || (accounts.token_vault_out.key.bytes@
            != accounts.pool_state.token_a_vault.bytes@ && accounts.token_vault_out.key.bytes@
            != accounts.pool_state.token_b_vault.bytes@))) || (e == AmmError::IdenticalVaults
            && accounts.token_vault_in.key.bytes@ == accounts.token_vault_out.key.bytes@) || (e
            == AmmError::MathZeroDivision && accounts.token_vault_in.amount + (amount_in * 997)
            / 1000 == 0) || (e == AmmError::SlippageExceeded && (accounts.token_vault_out.amount * (
        (amount_in * 997) / 1000)) / (accounts.token_vault_in.amount + (amount_in * 997) / 1000)
            < min_amount_out),
        ((accounts.token_vault_in.key.bytes@ != accounts.pool_state.token_a_vault.bytes@ && accounts.token_vault_in.key.bytes@ != accounts.pool_state.token_b_vault.bytes@) || (accounts.token_vault_out.key.bytes@ != accounts.pool_state.token_a_vault.bytes@ && accounts.token_vault_out.key.bytes@ != accounts.pool_state.token_b_vault.bytes@)) ==> r == Err::<SwapPlan, AmmError>(AmmError::InvalidVault),
        !((accounts.token_vault_in.key.bytes@ != accounts.pool_state.token_a_vault.bytes@ && accounts.token_vault_in.key.bytes@ != accounts.pool_state.token_b_vault.bytes@) || (accounts.token_vault_out.key.bytes@ != accounts.pool_state.token_a_vault.bytes@ && accounts.token_vault_out.key.bytes@ != accounts.pool_state.token_b_vault.bytes@)) && accounts.token_vault_in.key.bytes@ == accounts.token_vault_out.key.bytes@ ==> r
            == Err::<SwapPlan, AmmError>(AmmError::IdenticalVaults),
        !((accounts.token_vault_in.key.bytes@ != accounts.pool_state.token_a_vault.bytes@ && accounts.token_vault_in.key.bytes@ != accounts.pool_state.token_b_vault.bytes@) || (accounts.token_vault_out.key.bytes@ != accounts.pool_state.token_a_vault.bytes@ && accounts.token_vault_out.key.bytes@ != accounts.pool_state.token_b_vault.bytes@)) && accounts.token_vault_in.key.bytes@ != accounts.token_vault_out.key.bytes@
            && accounts.token_vault_in.amount + (amount_in * 997) / 1000 == 0 ==> r == Err::<
            SwapPlan,
            AmmError,
        >(AmmError::MathZeroDivision),
{
    let pool = &accounts.pool_state;
    if !pool.owns_vault(&accounts.token_vault_in.key) {
        return Err(AmmError::InvalidVault);
    }
    if !pool.owns_vault(&accounts.token_vault_out.key) {
        return Err(AmmError::InvalidVault);
    }
    if accounts.token_vault_out.key.equals(&accounts.token_vault_in.key) {
        return Err(AmmError::IdenticalVaults);
    }
    let reserve_in = accounts.token_vault_in.amount;
    let reserve_out = accounts.token_vault_out.amount;

    // 0.3% fee: 997 / 1000 of the input trades.
    let fee_amount_in = (amount_in as u128) * 997 / 1000;
    assert(fee_amount_in <= amount_in);
    proof {
        lemma_u64_product_fits(reserve_out, fee_amount_in as u64);
    }
    let invariant_numerator = (reserve_out as u128) * fee_amount_in;
    let invariant_denominator = (reserve_in as u128) + fee_amount_in;
    if invariant_denominator == 0 {
        return Err(AmmError::MathZeroDivision);
    }
    let amount_out_wide = invariant_numerator / invariant_denominator;
    proof {
        lemma_share_within_reserve(
            fee_amount_in as int,
            reserve_out as int,
            invariant_denominator as int,
        );
        assert(fee_amount_in as int * reserve_out as int == reserve_out as int
            * fee_amount_in as int) by (nonlinear_arith);
    }
    let amount_out = amount_out_wide as u64;

    if amount_out < min_amount_out {
        return Err(AmmError::SlippageExceeded);
    }
    Ok(SwapPlan { amount_in, amount_out })
}

} // verus!
