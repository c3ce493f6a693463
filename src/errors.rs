use vstd::prelude::*;

verus! {

/// Every way in which an operation on an option series can be rejected.
#[derive(Clone, Copy, Debug, PartialEq, Eq, Structural)]
pub enum ErrorCode {
    ExpirationInPast,
    InvalidStrikePrice,
    InvalidAmount,
    MathOverflow,
    InvalidUnderlyingMint,
    InvalidCollateralVault,
    OptionExpired,
    InvalidOptionMint,
    InvalidRedemptionMint,
    InvalidStrikeCurrency,
    InvalidCashVault,
    InsufficientCollateral,
    OptionNotExpired,
    NoTokensIssued,
    NoShortTokens,
    NoCashAvailable,
    NoClaimableConsideration,
    InvalidOptionSeries,
    InvalidUser,
}

impl ErrorCode {
    /// A human-readable description of the error.
    pub fn message(&self) -> (r: &'static str) {
        match self {
            ErrorCode::ExpirationInPast => "Expiration must be in the future",
            ErrorCode::InvalidStrikePrice => "Strike price must be greater than zero",
            ErrorCode::InvalidAmount => "Amount must be greater than zero",
            ErrorCode::MathOverflow => "Math operation overflow",
            ErrorCode::InvalidUnderlyingMint => "Invalid underlying mint",
            ErrorCode::InvalidCollateralVault => "Invalid collateral vault",
            ErrorCode::OptionExpired => "Option has expired",
            ErrorCode::InvalidOptionMint => "Invalid option mint",
            ErrorCode::InvalidRedemptionMint => "Invalid redemption mint",
            ErrorCode::InvalidStrikeCurrency => "Invalid strike currency",
            ErrorCode::InvalidCashVault => "Invalid cash vault",
            ErrorCode::InsufficientCollateral => "Insufficient collateral in vault",
            ErrorCode::OptionNotExpired => "Option has not expired yet",
            ErrorCode::NoTokensIssued => "No tokens have been issued",
            ErrorCode::NoShortTokens => "User has no SHORT (redemption) tokens",
            ErrorCode::NoCashAvailable => "Cash vault has no funds available",
            ErrorCode::NoClaimableConsideration => "No claimable consideration available for this user",
            ErrorCode::InvalidOptionSeries => "Invalid option series",
            ErrorCode::InvalidUser => "Invalid user",
        }
    }
}

} // verus!
