//! Constant-product automated market maker: the pool arithmetic, the
//! per-instruction decisions and the account constraints of the program,
//! with their contracts and the laws that tie them together.

pub mod accounts;
pub mod error;
pub mod instructions;
pub mod key;
pub mod laws;
pub mod math;
pub mod state;

pub use accounts::{DepositLiquidity, Mint, PoolState, Swap, TokenAccount, WithdrawLiquidity};
pub use error::{AmmError, DepositError};
pub use instructions::{
    deposit_liquidity, initialize_pool, swap, withdraw_liquidity, DepositPlan, SwapPlan, WithdrawPlan,
};
pub use key::AccountKey;
