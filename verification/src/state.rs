use vstd::prelude::*;
use crate::key::AccountKey;

verus! {

/// A pool record that also names the two token mints and keeps both bump seeds.
#[derive(Clone, Copy, Debug)]
pub struct PoolState {
    pub token_a_mint: AccountKey,
    pub token_b_mint: AccountKey,
    pub token_a_vault: AccountKey,
    pub token_b_vault: AccountKey,
    pub lp_mint: AccountKey,
    pub pool_bump: u8,
    pub authority_bump: u8,
}

} // verus!
