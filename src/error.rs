//! Errors reported by the ledger operations.

use vstd::prelude::*;

verus! {

/// Why a request was rejected as invalid.
#[derive(Debug, Clone, Copy, PartialEq, Eq, Structural)]
pub enum ValidationReason {
    /// Purchasing is currently paused.
    PurchasingPaused,
    /// The requested vesting period is longer than the maximum.
    VestPeriodTooLong,
    /// The owner already holds the maximum number of open purchases.
    TooManyPurchases,
    /// No coin was attached.
    FundsEmpty,
    /// More than one coin was attached.
    MoreThanOneCoin,
    /// The attached coin is not of the payment denomination.
    WrongDenom,
    /// The attached amount is above the maximum purchase amount.
    AboveMaxPurchase,
    /// The payment amount is not a multiple of the rounding unit.
    NotRounded,
}

/// The arithmetic step that overflowed or could not be carried out.
#[derive(Debug, Clone, Copy, PartialEq, Eq, Structural)]
pub enum ArithmeticStep {
    /// Rounding up to the rounding unit.
    RoundCeil,
    /// Converting the payment before the discount is applied.
    BeforeDiscount,
    /// Applying the discount bonus.
    AfterDiscount,
    /// Computing the block height at which a purchase is fully vested.
    VestExpiration,
    /// `amount_purchased - already_claimed`.
    AmountLeft,
    /// Dividing the purchase over the blocks of its vesting period.
    VestPerBlock,
    /// Multiplying the elapsed blocks by the amount vested per block.
    ClaimAmount,
    /// Crediting a deposit to the available balance.
    BalanceAdd,
}

/// Every way a ledger operation can fail.
#[derive(Debug, Clone, Copy, PartialEq, Eq, Structural)]
pub enum ContractError {
    /// The caller is not the administrator.
    Unauthorized,
    /// The request was rejected; the reason says why.
    Validation(ValidationReason),
    /// An arithmetic step overflowed or divided by zero.
    ArithmeticOverflow(ArithmeticStep),
    /// The caller has no purchase under the given id.
    NotFound,
    /// Nothing is left to claim on the purchase.
    AlreadyFullyVested,
    /// The current height is not past the last claim.
    TimingViolation,
    /// The sale amount is not below the available balance.
    InsufficientBalance,
}

} // verus!
