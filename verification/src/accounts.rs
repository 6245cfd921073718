use vstd::prelude::*;
use crate::key::AccountKey;

verus! {

/// The pool's configuration as stored on chain.
#[derive(Clone, Copy, Debug)]
pub struct PoolState {
    /// The account that created the pool; the pool address is derived from it.
    pub initializer: AccountKey,
    /// The vault that holds the pool's token A.
    pub token_a_vault: AccountKey,
    /// The vault that holds the pool's token B.
    pub token_b_vault: AccountKey,
    /// The mint of the pool's LP token.
    pub lp_mint: AccountKey,
    /// The bump seed of the pool's authority address.
    pub bump: u8,
}

/// What the program reads of a token account: its address and its balance.
#[derive(Clone, Copy, Debug)]
pub struct TokenAccount {
    pub key: AccountKey,
    pub amount: u64,
}

/// What the program reads of a mint: its address and the tokens in circulation.
#[derive(Clone, Copy, Debug)]
pub struct Mint {
    pub key: AccountKey,
    pub supply: u64,
}

/// The accounts of a pool creation that the new pool records.
#[derive(Clone, Copy, Debug)]
pub struct InitializePool {
    pub initializer: AccountKey,
    pub lp_mint: AccountKey,
    pub token_a_vault: AccountKey,
    pub token_b_vault: AccountKey,
}

/// The accounts that a deposit reads.
#[derive(Clone, Copy, Debug)]
pub struct DepositLiquidity {
    pub pool_state: PoolState,
    pub lp_mint: Mint,
    pub token_a_vault: TokenAccount,
    pub token_b_vault: TokenAccount,
}

/// The accounts that a withdrawal reads.
#[derive(Clone, Copy, Debug)]
pub struct WithdrawLiquidity {
    pub pool_state: PoolState,
    pub lp_mint: Mint,
    pub token_vault_a: TokenAccount,
    pub token_vault_b: TokenAccount,
}

/// The accounts that a swap reads.
#[derive(Clone, Copy, Debug)]
pub struct Swap {
    pub pool_state: PoolState,
    pub token_vault_in: TokenAccount,
    pub token_vault_out: TokenAccount,
}

impl PoolState {
    /// `key` is the pool's token A vault.
    pub fn is_token_a_vault(&self, key: &AccountKey) -> (r: bool)
        ensures
            r == (key.bytes@ == self.token_a_vault.bytes@),
    {
        key.equals(&self.token_a_vault)
    }

    /// `key` is the pool's token B vault.
    pub fn is_token_b_vault(&self, key: &AccountKey) -> (r: bool)
        ensures
            r == (key.bytes@ == self.token_b_vault.bytes@),
    {
        key.equals(&self.token_b_vault)
    }

    /// `key` is the pool's LP mint.
    pub fn is_lp_mint(&self, key: &AccountKey) -> (r: bool)
        ensures
            r == (key.bytes@ == self.lp_mint.bytes@),
    {
        key.equals(&self.lp_mint)
    }

    /// `key` is one of the pool's two vaults.
    pub fn owns_vault(&self, key: &AccountKey) -> (r: bool)
        ensures
            r == (key.bytes@ == self.token_a_vault.bytes@ || key.bytes@
                == self.token_b_vault.bytes@),
    {
        self.is_token_a_vault(key) || self.is_token_b_vault(key)
    }
}

} // verus!
