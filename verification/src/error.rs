use vstd::prelude::*;

verus! {

/// Errors that the pool instructions return.
#[derive(Clone, Copy, Debug, PartialEq, Eq, Structural)]
pub enum AmmError {
    /// The swap would pay out less than the caller's minimum.
    SlippageExceeded,
    /// The deposited amounts do not match the pool's reserve ratio, or a withdrawal
    /// asks to burn zero LP tokens.
    InvalidRatio,
    /// A vault or LP mint account does not belong to the pool, or the pool has no
    /// LP tokens outstanding.
    InvalidVault,
    /// The swap names the same vault for input and output.
    IdenticalVaults,
    /// A computed token amount does not fit in 64 bits.
    MathOverflow,
    /// A division would divide by zero.
    MathZeroDivision,
}

/// Errors of a deposit. Its vault checks carry no error of the program's own and fail with
/// the generic account-constraint error; its other checks fail with an `AmmError`.
#[derive(Clone, Copy, Debug, PartialEq, Eq, Structural)]
pub enum DepositError {
    /// A vault named in the deposit is not the pool's.
    ConstraintRaw,
    /// An error of the program's own.
    Amm(AmmError),
}

/// Errors of the stand-alone pool arithmetic helpers.
#[derive(Clone, Copy, Debug, PartialEq, Eq, Structural)]
pub enum ErrorCode {
    /// An intermediate value does not fit in 128 bits, or the fee exceeds 100%.
    MathOverflow,
    /// A divisor is zero.
    MathZeroDivision,
    /// The output is below the caller's minimum.
    SlippageExceeded,
    /// The initial deposit is below the minimum.
    InvalidInitialLiquidity,
}

} // verus!
