//! Failures of a routing call. Every one aborts the whole call.

use vstd::prelude::*;

verus! {

/// The router's own failures.
#[derive(Clone, Copy, Debug, PartialEq, Eq, Structural)]
pub enum ErrorCode {
    /// A split bucket chains more hops than `MAX_HOPS`.
    TooManyHops,
    /// The destination balance grew by less than the caller's minimum.
    MinReturnNotReached,
    /// `amount_in` is zero.
    AmountInMustBeGreaterThanZero,
    /// `min_return` is zero.
    MinReturnMustBeGreaterThanZero,
    /// `expect_amount_out` is below `min_return`.
    InvalidExpectAmountOut,
    /// `amounts` and `routes` differ in length.
    AmountsAndRoutesMustHaveTheSameLength,
    /// The split amounts do not add up to `amount_in`.
    TotalAmountsMustBeEqualToAmountIn,
    /// A hop names a different number of venues and weights.
    DexesAndWeightsMustHaveTheSameLength,
    /// The weights of a hop do not add up to `TOTAL_WEIGHT`.
    WeightsMustSumTo100,
    /// The first hop does not draw from the caller's source account.
    InvalidSourceTokenAccount,
    /// The last hop does not pay into the caller's destination account.
    InvalidDestinationTokenAccount,
    /// The commission rate is zero or above the limit.
    InvalidCommissionRate,
    /// The commission asset does not match the side it is charged on.
    InvalidCommissionTokenAccount,
    /// Fewer accounts were supplied than a venue or relay needs.
    InvalidAccountsLength,
    /// A fork trades between other accounts than its siblings in the hop.
    InvalidHopAccounts,
    /// A hop does not draw from the account the previous hop paid into.
    InvalidHopFromAccount,
    /// The caller's authority did not sign a direct first hop.
    SwapAuthorityIsNotSigner,
    /// The authority of a delegated hop is not the program-derived one.
    InvalidAuthorityPda,
    /// The venue program is not the one the venue tag stands for.
    InvalidProgramId,
    /// The user's assets match neither direction of the pool.
    InvalidPool,
    /// The user's assets match neither side of the market.
    InvalidTokenMint,
    /// An amount overflowed, underflowed or was divided by zero.
    CalculationError,
    /// The program-derived authority could not be created.
    AuthorityPDACreationFailed,
    /// A transfer of the native asset failed.
    TransferSolFailed,
    /// A transfer of a token failed.
    TransferTokenFailed,
    /// The pool's list of liquid-stake tokens is not a whole number of entries.
    InvalidSanctumLstStateListData,
    /// The pool's list of liquid-stake tokens does not hold the mint.
    InvalidSanctumLstStateListIndex,
    /// The accounts do not fit the kind of exchange that was asked for.
    InvalidSanctumSwapAccounts,
}

/// Why a routing call failed.
#[derive(Clone, Copy, Debug, PartialEq, Eq, Structural)]
pub enum Error {
    /// One of the router's own failures.
    Router(ErrorCode),
    /// A token account or mint is owned by the system program and holds nothing.
    AccountNotInitialized,
    /// A token account or mint is owned by neither token program.
    AccountOwnedByWrongProgram,
    /// A program account does not have the address of the program it stands for.
    InvalidProgramId,
    /// A program account is not executable.
    InvalidProgramExecutable,
    /// An account is too short to hold the fields a venue reads from it.
    MalformedAccountData,
    /// A failure of a token-state decoder or of an invoked program, by its numeric code.
    Program(u64),
}

} // verus!
