use vstd::prelude::*;

verus! {

/// Every way in which a marketplace operation can be rejected.
#[derive(Clone, Copy, Debug, PartialEq, Eq, Structural)]
pub enum ErrorCode {
    InvalidPrice,
    InvalidAmount,
    InvalidMint,
    InvalidFillSize,
    MathOverflow,
    UnauthorizedAccess,
    OrderFullyFilled,
    InvalidMarket,
}

impl ErrorCode {
    /// A human-readable description of the error.
    pub fn message(&self) -> (r: &'static str) {
        match self {
            ErrorCode::InvalidPrice => "Invalid price (must be > 0)",
            ErrorCode::InvalidAmount => "Invalid amount (must be > 0)",
            ErrorCode::InvalidMint => "Invalid mint for order side",
            ErrorCode::InvalidFillSize => "Invalid fill size",
            ErrorCode::MathOverflow => "Math overflow",
            ErrorCode::UnauthorizedAccess => "Unauthorized access",
            ErrorCode::OrderFullyFilled => "Order fully filled",
            ErrorCode::InvalidMarket => "Invalid market",
        }
    }
}

} // verus!
