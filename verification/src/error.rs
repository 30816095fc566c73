use vstd::prelude::*;

verus! {

/// Every way in which an instruction can refuse to act.
#[derive(Clone, Copy, Debug, PartialEq, Eq)]
pub enum MiniPumpError {
    /// A subtraction of token units would go below zero.
    InsufficientTokenBalance,
    /// There is no SOL to act on.
    InsufficientSolBalance,
    /// An addition does not fit in 64 bits.
    ArithmeticOverflow,
    InvalidTokenAmount,
    InvalidSolAmount,
    /// The pricing formula produced a value outside the curve.
    CalculationError,
    TokenSoldLimitReached,
    /// A trade was attempted on a curve that no longer trades.
    BondingCurveNotActive,
    /// A withdrawal was attempted by someone other than the protocol owner.
    NotOwner,
    /// A withdrawal was attempted on a curve that still trades.
    BondingCurveActive,
}

} // verus!
