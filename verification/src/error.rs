//! The failures an operation can end in.

use vstd::prelude::*;

verus! {

/// Failures of the store and of arithmetic, as opposed to refusals of the
/// contract's own rules.
#[derive(Debug, Clone, Copy, PartialEq, Eq, Structural)]
pub enum StdError {
    /// No owner has been stored yet.
    ConfigNotFound,
    /// No configuration is stored for the pair.
    PairConfigNotFound,
    /// No ledger entry is stored for the pair.
    SwapNotFound,
    /// The funds sent with the call hold no coin of exactly the offered
    /// denomination and amount.
    NoAssetsProvided,
    /// A division by zero.
    DivideByZero,
    /// A message could not be serialised.
    SerializeErr,
}

/// Why an operation was refused. A refused operation leaves the state as it
/// was.
#[derive(Debug, Clone, Copy, PartialEq, Eq, Structural)]
pub enum ContractError {
    Std(StdError),
    OverflowError,
    Unauthorized,
    PairConfigDisabled,
    BalanceNotEnough,
    PairNotFound,
    UnableToReceiveMsg,
    InvalidDenom,
    InvalidParameter,
    InvalidOwner,
    InvalidAmount,
    InsufficientLiquidity,
    Cw20DirectSwap,
}

} // verus!
