use vstd::prelude::*;

verus! {

/// Every way an operation of the engine can fail. All failures are
/// definitional — bad input, bad state, or an arithmetic impossibility — so
/// none of them is ever recovered locally: each one aborts the whole
/// operation and leaves the reserves exactly as they were.
#[derive(Clone, Copy, PartialEq, Eq, Debug)]
pub enum ErrorCode {
    /// A zero or otherwise nonsensical input amount.
    InvalidAmount,
    /// The computed output violates the caller's slippage bound.
    SlippageExceeded,
    /// A trade was attempted on a curve that has been retired.
    CurveComplete,
    /// A subtraction on the reserves would underflow.
    InsufficientReserves,
    /// An addition, multiplication or narrowing conversion would lose
    /// information.
    Overflow,
    /// The mint authority is not the expected one.
    UnauthorizedMintAuthority,
    /// The balance placed under curve custody does not match the declared
    /// initial supply.
    InvalidSupply,
    /// The creator does not hold exactly the initial supply at creation.
    CreatorMustHaveAllTokens,
    /// A curve account that should be empty is not.
    CurveAccountNotEmpty,
    /// The virtual token reserves do not strictly exceed the initial supply.
    VirtualReservesTooSmall,
    /// The creator's balance is insufficient for the requested creation.
    InsufficientBalance,
}

} // verus!
