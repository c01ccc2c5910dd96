use vstd::prelude::*;

verus! {

/// Every way an operation of the lending protocol can be refused.
#[derive(Debug, Clone, Copy, PartialEq, Eq, Structural)]
pub enum LendingError {
    /// Math overflow
    MathOverflow,
    /// Addition overflow
    AdditionOverflow,
    /// Subtraction overflow
    SubtractionOverflow,
    /// Multiplication overflow
    MultiplicationOverflow,
    /// Division overflow
    DivisionOverflow,
    /// Division by zero
    DivisionByZero,
    /// Numeric cast overflow
    CastOverflow,
    /// Borrow would exceed the market max loan-to-value (LTV)
    MaxLtvReached,
    /// Borrow would exceed the market max utilisation rate
    MaxUtilisationRateReached,
    /// Position does not belong to this market
    InvalidMarketForPosition,
    /// Position is healthy and cannot be liquidated
    PositionIsHealthy,
    /// Supply would exceed the market max supply
    MaxSupplyReached,
    /// Invalid LTV configuration
    InvalidLtvConfig,
    /// Invalid interest rate curve
    InvalidCurve,
    /// Invalid exponential function argument
    InvalidExpArg,
    /// Invalid max utilisation rate
    InvalidMaxUtilisationRate,
    /// Liquidation must reduce the position loan-to-value (LTV)
    InvalidLiquidationLtvShouldDecrease,
    /// Invalid Pyth oracle account
    InvalidPythOracleAccount,
    /// Invalid Chaos Labs oracle account
    InvalidChaosOracleAccount,
    /// Invalid oracle feed id
    InvalidOracleFeedId,
    /// Failed to load account
    FailedToLoadAccount,
    /// Withdrawal exceeds available market reserves
    WithdrawalExceedsReserves,
    /// Withdrawal exceeds the amount deposited
    WithdrawalExceedsDeposited,
    /// Repay amount exceeds the outstanding borrow
    RepayExceedsBorrowed,
    /// Oracle price is too old
    OracleRateTooOld,
    /// Oracle price confidence is too low relative to the price
    OracleRateRelativeConfidenceTooLow,
    /// Oracle price is negative
    NegativeOracleRate,
    /// Oracle price is zero or null
    OracleRateIsNull,
    /// Oracle confidence interval exceeds the price
    OracleConfidenceExceedsRate,
    /// Liquidation did not meet market requirements
    LiquidationDidNotMeetRequirements,
    /// Fee is too high
    FeeTooHigh,
    /// Share accounting overflow
    SharesOverflow,
    /// Invalid protocol authority nomination
    InvalidNomination,
    /// Cannot modify share price when there are zero shares
    CantModifySharePriceIfZeroShares,
    /// Interest rate cannot be negative
    NegativeInterestRate,
    /// Cannot socialize debt for a healthy position
    CannotSocializeDebtForHealthyPosition,
    /// Unsupported mint decimals
    UnsupportedMintDecimals,
    /// Invalid oracle configuration
    InvalidOracleConfig,
    /// A capital sweep is already pending for this market
    CapitalSweepPending,
    /// No capital sweep is pending for this market
    NoCapitalSweepPending,
    /// Capital sweep position is insolvent
    CapitalSweepPositionInsolvent,
    /// Capital sweep did not meet market requirements
    CapitalSweepDidNotMeetRequirements,
    /// Liquidator is already whitelisted
    LiquidatorAlreadyWhitelisted,
    /// Liquidator is not whitelisted
    LiquidatorNotWhitelisted,
    /// Oracle account address does not match the feed's canonical account
    InvalidOracleFeedAccount,
}

/// Result of an operation of the lending protocol.
pub type LendingResult<T> = Result<T, LendingError>;

/// The user-facing message of each error.
pub open spec fn error_message(e: LendingError) -> Seq<char> {
    match e {
        LendingError::MathOverflow => "Math overflow"@,
        LendingError::AdditionOverflow => "Addition overflow"@,
        LendingError::SubtractionOverflow => "Subtraction overflow"@,
        LendingError::MultiplicationOverflow => "Multiplication overflow"@,
        LendingError::DivisionOverflow => "Division overflow"@,
        LendingError::DivisionByZero => "Division by zero"@,
        LendingError::CastOverflow => "Numeric cast overflow"@,
        LendingError::MaxLtvReached => "Borrow would exceed the market max loan-to-value (LTV)"@,
        LendingError::MaxUtilisationRateReached => "Borrow would exceed the market max utilisation rate"@,
        LendingError::InvalidMarketForPosition => "Position does not belong to this market"@,
        LendingError::PositionIsHealthy => "Position is healthy and cannot be liquidated"@,
        LendingError::MaxSupplyReached => "Supply would exceed the market max supply"@,
        LendingError::InvalidLtvConfig => "Invalid LTV configuration"@,
        LendingError::InvalidCurve => "Invalid interest rate curve"@,
        LendingError::InvalidExpArg => "Invalid exponential function argument"@,
        LendingError::InvalidMaxUtilisationRate => "Invalid max utilisation rate"@,
        LendingError::InvalidLiquidationLtvShouldDecrease => "Liquidation must reduce the position loan-to-value (LTV)"@,
        LendingError::InvalidPythOracleAccount => "Invalid Pyth oracle account"@,
        LendingError::InvalidChaosOracleAccount => "Invalid Chaos Labs oracle account"@,
        LendingError::InvalidOracleFeedId => "Invalid oracle feed id"@,
        LendingError::FailedToLoadAccount => "Failed to load account"@,
        LendingError::WithdrawalExceedsReserves => "Withdrawal exceeds available market reserves"@,
        LendingError::WithdrawalExceedsDeposited => "Withdrawal exceeds the amount deposited"@,
        LendingError::RepayExceedsBorrowed => "Repay amount exceeds the outstanding borrow"@,
        LendingError::OracleRateTooOld => "Oracle price is too old"@,
        LendingError::OracleRateRelativeConfidenceTooLow => "Oracle price confidence is too low relative to the price"@,
        LendingError::NegativeOracleRate => "Oracle price is negative"@,
        LendingError::OracleRateIsNull => "Oracle price is zero or null"@,
        LendingError::OracleConfidenceExceedsRate => "Oracle confidence interval exceeds the price"@,
        LendingError::LiquidationDidNotMeetRequirements => "Liquidation did not meet market requirements"@,
        LendingError::FeeTooHigh => "Fee is too high"@,
        LendingError::SharesOverflow => "Share accounting overflow"@,
        LendingError::InvalidNomination => "Invalid protocol authority nomination"@,
        LendingError::CantModifySharePriceIfZeroShares => "Cannot modify share price when there are zero shares"@,
        LendingError::NegativeInterestRate => "Interest rate cannot be negative"@,
        LendingError::CannotSocializeDebtForHealthyPosition => "Cannot socialize debt for a healthy position"@,
        LendingError::UnsupportedMintDecimals => "Unsupported mint decimals"@,
        LendingError::InvalidOracleConfig => "Invalid oracle configuration"@,
        LendingError::CapitalSweepPending => "A capital sweep is already pending for this market"@,
        LendingError::NoCapitalSweepPending => "No capital sweep is pending for this market"@,
        LendingError::CapitalSweepPositionInsolvent => "Capital sweep position is insolvent"@,
        LendingError::CapitalSweepDidNotMeetRequirements => "Capital sweep did not meet market requirements"@,
        LendingError::LiquidatorAlreadyWhitelisted => "Liquidator is already whitelisted"@,
        LendingError::LiquidatorNotWhitelisted => "Liquidator is not whitelisted"@,
        LendingError::InvalidOracleFeedAccount => "Oracle account address does not match the feed's canonical account"@,
    }
}

impl LendingError {
    /// The user-facing message of this error.
    pub fn message(&self) -> (s: &'static str)
        ensures
            s@ == error_message(*self),
    {
        match self {
            LendingError::MathOverflow => "Math overflow",
            LendingError::AdditionOverflow => "Addition overflow",
            LendingError::SubtractionOverflow => "Subtraction overflow",
            LendingError::MultiplicationOverflow => "Multiplication overflow",
            LendingError::DivisionOverflow => "Division overflow",
            LendingError::DivisionByZero => "Division by zero",
            LendingError::CastOverflow => "Numeric cast overflow",
            LendingError::MaxLtvReached => "Borrow would exceed the market max loan-to-value (LTV)",
            LendingError::MaxUtilisationRateReached => "Borrow would exceed the market max utilisation rate",
            LendingError::InvalidMarketForPosition => "Position does not belong to this market",
            LendingError::PositionIsHealthy => "Position is healthy and cannot be liquidated",
            LendingError::MaxSupplyReached => "Supply would exceed the market max supply",
            LendingError::InvalidLtvConfig => "Invalid LTV configuration",
            LendingError::InvalidCurve => "Invalid interest rate curve",
            LendingError::InvalidExpArg => "Invalid exponential function argument",
            LendingError::InvalidMaxUtilisationRate => "Invalid max utilisation rate",
            LendingError::InvalidLiquidationLtvShouldDecrease => "Liquidation must reduce the position loan-to-value (LTV)",
            LendingError::InvalidPythOracleAccount => "Invalid Pyth oracle account",
            LendingError::InvalidChaosOracleAccount => "Invalid Chaos Labs oracle account",
            LendingError::InvalidOracleFeedId => "Invalid oracle feed id",
            LendingError::FailedToLoadAccount => "Failed to load account",
            LendingError::WithdrawalExceedsReserves => "Withdrawal exceeds available market reserves",
            LendingError::WithdrawalExceedsDeposited => "Withdrawal exceeds the amount deposited",
            LendingError::RepayExceedsBorrowed => "Repay amount exceeds the outstanding borrow",
            LendingError::OracleRateTooOld => "Oracle price is too old",
            LendingError::OracleRateRelativeConfidenceTooLow => "Oracle price confidence is too low relative to the price",
            LendingError::NegativeOracleRate => "Oracle price is negative",
            LendingError::OracleRateIsNull => "Oracle price is zero or null",
            LendingError::OracleConfidenceExceedsRate => "Oracle confidence interval exceeds the price",
            LendingError::LiquidationDidNotMeetRequirements => "Liquidation did not meet market requirements",
            LendingError::FeeTooHigh => "Fee is too high",
            LendingError::SharesOverflow => "Share accounting overflow",
            LendingError::InvalidNomination => "Invalid protocol authority nomination",
            LendingError::CantModifySharePriceIfZeroShares => "Cannot modify share price when there are zero shares",
            LendingError::NegativeInterestRate => "Interest rate cannot be negative",
            LendingError::CannotSocializeDebtForHealthyPosition => "Cannot socialize debt for a healthy position",
            LendingError::UnsupportedMintDecimals => "Unsupported mint decimals",
            LendingError::InvalidOracleConfig => "Invalid oracle configuration",
            LendingError::CapitalSweepPending => "A capital sweep is already pending for this market",
            LendingError::NoCapitalSweepPending => "No capital sweep is pending for this market",
            LendingError::CapitalSweepPositionInsolvent => "Capital sweep position is insolvent",
            LendingError::CapitalSweepDidNotMeetRequirements => "Capital sweep did not meet market requirements",
            LendingError::LiquidatorAlreadyWhitelisted => "Liquidator is already whitelisted",
            LendingError::LiquidatorNotWhitelisted => "Liquidator is not whitelisted",
            LendingError::InvalidOracleFeedAccount => "Oracle account address does not match the feed's canonical account",
        }
    }
}

} // verus!
