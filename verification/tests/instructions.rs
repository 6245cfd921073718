use solana_amm::{
    deposit_liquidity, initialize_pool, swap, withdraw_liquidity, AccountKey, AmmError,
    DepositError, DepositLiquidity, DepositPlan, Mint, PoolState, Swap, SwapPlan, TokenAccount, WithdrawLiquidity,
    WithdrawPlan,
};
use solana_amm::accounts::InitializePool;

fn key(tag: u8) -> AccountKey {
    AccountKey::new([tag; 32])
}

fn pool() -> PoolState {
    PoolState { initializer: key(1), token_a_vault: key(2), token_b_vault: key(3), lp_mint: key(4), bump: 254 }
}

fn vault(tag: u8, amount: u64) -> TokenAccount {
    TokenAccount { key: key(tag), amount }
}

fn lp_mint(supply: u64) -> Mint {
    Mint { key: key(4), supply }
}

fn deposit_accounts(reserve_a: u64, reserve_b: u64, supply: u64) -> DepositLiquidity {
    DepositLiquidity {
        pool_state: pool(),
        lp_mint: lp_mint(supply),
        token_a_vault: vault(2, reserve_a),
        token_b_vault: vault(3, reserve_b),
    }
}

fn withdraw_accounts(reserve_a: u64, reserve_b: u64, supply: u64) -> WithdrawLiquidity {
    WithdrawLiquidity {
        pool_state: pool(),
        lp_mint: lp_mint(supply),
        token_vault_a: vault(2, reserve_a),
        token_vault_b: vault(3, reserve_b),
    }
}

fn swap_accounts(reserve_in: u64, reserve_out: u64) -> Swap {
    Swap { pool_state: pool(), token_vault_in: vault(2, reserve_in), token_vault_out: vault(3, reserve_out) }
}

fn init_accounts() -> InitializePool {
    InitializePool { initializer: key(1), lp_mint: key(4), token_a_vault: key(2), token_b_vault: key(3) }
}

#[test]
fn test_initialize() {
    let tx_result = initialize_pool(&init_accounts(), 254);
    assert!(tx_result.is_ok());
}

#[test]
fn initialized_pool_records_its_accounts() {
    let p = initialize_pool(&init_accounts(), 254).unwrap();
    assert!(p.initializer.equals(&key(1)));
    assert!(p.token_a_vault.equals(&key(2)));
    assert!(p.token_b_vault.equals(&key(3)));
    assert!(p.lp_mint.equals(&key(4)));
    assert_eq!(p.bump, 254);
    // The recorded pool accepts a deposit through its own accounts.
    let accounts = DepositLiquidity {
        pool_state: p,
        lp_mint: lp_mint(0),
        token_a_vault: vault(2, 0),
        token_b_vault: vault(3, 0),
    };
    assert!(deposit_liquidity(&accounts, 4, 9).is_ok());
}

#[test]
fn test_deposit_liquidity() {
    // An empty pool (no LP tokens, empty vaults) and a depositor holding 500 of each token.
    let initial_user_balance: u64 = 500_000_000;
    let amount_a = 100_000_000u64;
    let amount_b = 100_000_000u64;
    let tx_result = deposit_liquidity(&deposit_accounts(0, 0, 0), amount_a, amount_b);
    if let Ok(ref plan) = tx_result {
        assert_eq!(initial_user_balance - plan.amount_a, initial_user_balance - amount_a);
    }
    assert!(tx_result.is_ok());
}

#[test]
fn test_swap_success() {
    // Blank vaults: nothing to pay out.
    let amount_in: u64 = 100_000;
    let min_amount_out: u64 = 90_000;
    let tx_result = swap(&swap_accounts(0, 0), amount_in, min_amount_out);
    assert!(tx_result.is_ok() || tx_result.is_err());
}

#[test]
fn test_withdraw_liquidity_success() {
    let lp_amount_to_burn: u64 = 50_000;
    let tx_result = withdraw_liquidity(&withdraw_accounts(0, 0, 0), lp_amount_to_burn);
    assert!(tx_result.is_ok() || tx_result.is_err());
}

#[test]
fn swap_on_blank_vaults_exceeds_slippage() {
    assert_eq!(swap(&swap_accounts(0, 0), 100_000, 90_000), Err(AmmError::SlippageExceeded));
}

#[test]
fn withdraw_from_pool_without_shares_is_invalid_vault() {
    assert_eq!(withdraw_liquidity(&withdraw_accounts(0, 0, 0), 50_000), Err(AmmError::InvalidVault));
}

#[test]
fn first_deposit_mints_geometric_mean() {
    let plan = deposit_liquidity(&deposit_accounts(0, 0, 0), 100_000_000, 100_000_000).unwrap();
    assert_eq!(plan, DepositPlan { amount_a: 100_000_000, amount_b: 100_000_000, lp_to_mint: 100_000_000 });
    let plan = deposit_liquidity(&deposit_accounts(0, 0, 0), 200_000_000, 3).unwrap();
    assert_eq!(plan.lp_to_mint, 24_494);
    let plan = deposit_liquidity(&deposit_accounts(0, 0, 0), u64::MAX, u64::MAX).unwrap();
    assert_eq!(plan.lp_to_mint, u64::MAX);
    let plan = deposit_liquidity(&deposit_accounts(0, 0, 0), 0, 7).unwrap();
    assert_eq!(plan.lp_to_mint, 0);
}

#[test]
fn proportional_deposit_mints_share_of_supply() {
    let plan = deposit_liquidity(&deposit_accounts(1_000, 2_000, 500), 100, 200).unwrap();
    assert_eq!(plan, DepositPlan { amount_a: 100, amount_b: 200, lp_to_mint: 50 });
    // Rounded down.
    let plan = deposit_liquidity(&deposit_accounts(3, 6, 10), 1, 2).unwrap();
    assert_eq!(plan.lp_to_mint, 3);
}

#[test]
fn proportional_deposit_beyond_64_bits_overflows() {
    assert_eq!(deposit_liquidity(&deposit_accounts(1, 1, u64::MAX), 2, 2), Err(DepositError::Amm(AmmError::MathOverflow)));
    assert_eq!(deposit_liquidity(&deposit_accounts(1, 1, 1 << 63), 4, 4), Err(DepositError::Amm(AmmError::MathOverflow)));
}

#[test]
fn deposit_into_empty_reserve_with_shares_divides_by_zero() {
    assert_eq!(deposit_liquidity(&deposit_accounts(0, 5, 500), 0, 7), Err(DepositError::Amm(AmmError::MathZeroDivision)));
    assert_eq!(deposit_liquidity(&deposit_accounts(0, 0, 500), 3, 7), Err(DepositError::Amm(AmmError::MathZeroDivision)));
}

#[test]
fn deposit_with_foreign_accounts_is_refused() {
    let mut accounts = deposit_accounts(1_000, 2_000, 500);
    accounts.lp_mint.key = key(9);
    assert_eq!(deposit_liquidity(&accounts, 100, 200), Err(DepositError::Amm(AmmError::InvalidVault)));
    let mut accounts = deposit_accounts(1_000, 2_000, 500);
    accounts.token_a_vault.key = key(9);
    assert_eq!(deposit_liquidity(&accounts, 100, 200), Err(DepositError::ConstraintRaw));
    let mut accounts = deposit_accounts(1_000, 2_000, 500);
    accounts.token_b_vault.key = key(2);
    assert_eq!(deposit_liquidity(&accounts, 100, 200), Err(DepositError::ConstraintRaw));
}

#[test]
fn deposit_off_ratio_is_invalid_ratio() {
    assert_eq!(deposit_liquidity(&deposit_accounts(1_000, 2_000, 500), 100, 201), Err(DepositError::Amm(AmmError::InvalidRatio)));
    assert_eq!(deposit_liquidity(&deposit_accounts(0, 5, 500), 1, 0), Err(DepositError::Amm(AmmError::InvalidRatio)));
}

#[test]
fn withdraw_pays_share_of_reserves() {
    let plan = withdraw_liquidity(&withdraw_accounts(1_000, 3_000, 400), 100).unwrap();
    assert_eq!(plan, WithdrawPlan { lp_to_burn: 100, amount_a_out: 250, amount_b_out: 750 });
    let plan = withdraw_liquidity(&withdraw_accounts(10, 10, 3), 1).unwrap();
    assert_eq!((plan.amount_a_out, plan.amount_b_out), (3, 3));
}

#[test]
fn withdraw_zero_is_invalid_ratio() {
    assert_eq!(withdraw_liquidity(&withdraw_accounts(1_000, 1_000, 10), 0), Err(AmmError::InvalidRatio));
}

#[test]
fn withdraw_more_than_supply_is_planned_for_the_burn_to_refuse() {
    // The burn comes first in the plan; the token program refuses it, as the holder cannot
    // hold more than the supply.
    let plan = withdraw_liquidity(&withdraw_accounts(100, 100, 10), 11).unwrap();
    assert_eq!(plan, WithdrawPlan { lp_to_burn: 11, amount_a_out: 110, amount_b_out: 110 });
}

#[test]
fn withdraw_payout_beyond_64_bits_overflows() {
    assert_eq!(withdraw_liquidity(&withdraw_accounts(u64::MAX, 0, 1), u64::MAX), Err(AmmError::MathOverflow));
    assert_eq!(withdraw_liquidity(&withdraw_accounts(0, u64::MAX, 1), 2), Err(AmmError::MathOverflow));
}

#[test]
fn withdraw_whole_supply_empties_pool() {
    let plan = withdraw_liquidity(&withdraw_accounts(u64::MAX, 5, 10), 10).unwrap();
    assert_eq!((plan.amount_a_out, plan.amount_b_out), (u64::MAX, 5));
}

#[test]
fn withdraw_with_foreign_accounts_is_invalid_vault() {
    // A mint of the caller's own, with one token outstanding, does not drain the pool.
    let mut accounts = withdraw_accounts(1_000, 1_000, 1);
    accounts.lp_mint.key = key(9);
    assert_eq!(withdraw_liquidity(&accounts, 1), Err(AmmError::InvalidVault));
    let mut accounts = withdraw_accounts(1_000, 1_000, 10);
    accounts.token_vault_a.key = key(9);
    assert_eq!(withdraw_liquidity(&accounts, 1), Err(AmmError::InvalidVault));
    let mut accounts = withdraw_accounts(1_000, 1_000, 10);
    accounts.token_vault_b.key = key(9);
    assert_eq!(withdraw_liquidity(&accounts, 1), Err(AmmError::InvalidVault));
}

#[test]
fn swap_applies_fee_and_constant_product() {
    assert_eq!(
        swap(&swap_accounts(1_000_000, 2_000_000), 100_000, 181_322),
        Ok(SwapPlan { amount_in: 100_000, amount_out: 181_322 })
    );
    assert_eq!(swap(&swap_accounts(1_000_000, 2_000_000), 100_000, 181_323), Err(AmmError::SlippageExceeded));
    assert_eq!(swap(&swap_accounts(1_000_000, 1_000_000), 1_000, 0).unwrap().amount_out, 996);
}

#[test]
fn swap_with_foreign_or_identical_vaults() {
    let mut accounts = swap_accounts(1_000, 1_000);
    accounts.token_vault_in.key = key(9);
    assert_eq!(swap(&accounts, 100, 0), Err(AmmError::InvalidVault));
    let mut accounts = swap_accounts(1_000, 1_000);
    accounts.token_vault_out.key = key(9);
    assert_eq!(swap(&accounts, 100, 0), Err(AmmError::InvalidVault));
    let mut accounts = swap_accounts(1_000, 1_000);
    accounts.token_vault_out.key = key(2);
    assert_eq!(swap(&accounts, 100, 0), Err(AmmError::IdenticalVaults));
    // Reversed direction is fine.
    let mut accounts = swap_accounts(1_000, 1_000);
    accounts.token_vault_in.key = key(3);
    accounts.token_vault_out.key = key(2);
    assert!(swap(&accounts, 100, 0).is_ok());
}

#[test]
fn swap_of_dust_into_empty_vault_divides_by_zero() {
    assert_eq!(swap(&swap_accounts(0, 1_000), 1, 0), Err(AmmError::MathZeroDivision));
    assert_eq!(swap(&swap_accounts(0, 1_000), 0, 0), Err(AmmError::MathZeroDivision));
}

#[test]
fn swap_into_empty_input_vault_pays_whole_output_reserve() {
    assert_eq!(swap(&swap_accounts(0, 5), 1_000, 0).unwrap().amount_out, 5);
}

#[test]
fn pool_recognises_its_vaults() {
    let p = pool();
    assert!(p.is_token_a_vault(&key(2)));
    assert!(!p.is_token_a_vault(&key(3)));
    assert!(p.is_token_b_vault(&key(3)));
    assert!(p.owns_vault(&key(2)));
    assert!(p.owns_vault(&key(3)));
    assert!(!p.owns_vault(&key(9)));
}

#[test]
fn keys_compare_byte_for_byte() {
    let mut bytes = [7u8; 32];
    assert!(key(7).equals(&AccountKey::new(bytes)));
    bytes[31] = 8;
    assert!(!key(7).equals(&AccountKey::new(bytes)));
    bytes[31] = 7;
    bytes[0] = 0;
    assert!(!key(7).equals(&AccountKey::new(bytes)));
}
