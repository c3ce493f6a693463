use vstd::prelude::*;

use crate::errors::ErrorCode;

verus! {

/// Fails with `InvalidAmount` unless `amount` is positive.
pub fn validate_amount(amount: u64) -> (r: Result<(), ErrorCode>)
    ensures
        r == (if amount > 0 { Ok(()) } else { Err(ErrorCode::InvalidAmount) }),
{
    if amount > 0 {
        Ok(())
    } else {
        Err(ErrorCode::InvalidAmount)
    }
}

/// Fails with `ExpirationInPast` unless `expiration` lies strictly after `now`.
pub fn validate_expiration(expiration: i64, now: i64) -> (r: Result<(), ErrorCode>)
    ensures
        r == (if expiration > now { Ok(()) } else { Err(ErrorCode::ExpirationInPast) }),
{
    if expiration > now {
        Ok(())
    } else {
        Err(ErrorCode::ExpirationInPast)
    }
}

/// Fails with `InvalidStrikePrice` unless `strike_price` is positive.
pub fn validate_strike_price(strike_price: u64) -> (r: Result<(), ErrorCode>)
    ensures
        r == (if strike_price > 0 { Ok(()) } else { Err(ErrorCode::InvalidStrikePrice) }),
{
    if strike_price > 0 {
        Ok(())
    } else {
        Err(ErrorCode::InvalidStrikePrice)
    }
}

/// Guard of pre-expiry operations: fails with `OptionExpired` once `now`
/// has reached `expiration`.
pub fn validate_not_expired(expiration: i64, now: i64) -> (r: Result<(), ErrorCode>)
    ensures
        r == (if now < expiration { Ok(()) } else { Err(ErrorCode::OptionExpired) }),
{
    if now < expiration {
        Ok(())
    } else {
        Err(ErrorCode::OptionExpired)
    }
}

/// Guard of post-expiry operations: fails with `OptionNotExpired` while
/// `now` is still before `expiration`.
pub fn validate_expired(expiration: i64, now: i64) -> (r: Result<(), ErrorCode>)
    ensures
        r == (if now >= expiration { Ok(()) } else { Err(ErrorCode::OptionNotExpired) }),
{
    if now >= expiration {
        Ok(())
    } else {
        Err(ErrorCode::OptionNotExpired)
    }
}

/// Fails with `InsufficientCollateral` when the vault holds less than `required`.
pub fn validate_vault_balance(vault_balance: u64, required: u64) -> (r: Result<(), ErrorCode>)
    ensures
        r == (if vault_balance >= required { Ok(()) } else { Err(ErrorCode::InsufficientCollateral) }),
{
    if vault_balance >= required {
        Ok(())
    } else {
        Err(ErrorCode::InsufficientCollateral)
    }
}

} // verus!
