use sol_option_protocol::errors::ErrorCode;
use sol_option_protocol::validation::{
    validate_amount, validate_expiration, validate_expired, validate_not_expired,
    validate_strike_price, validate_vault_balance,
};

#[test]
fn amount_must_be_positive() {
    assert_eq!(validate_amount(1), Ok(()));
    assert_eq!(validate_amount(0), Err(ErrorCode::InvalidAmount));
}

#[test]
fn strike_price_must_be_positive() {
    assert_eq!(validate_strike_price(4_000_000), Ok(()));
    assert_eq!(validate_strike_price(0), Err(ErrorCode::InvalidStrikePrice));
}

#[test]
fn expiration_must_be_in_the_future() {
    assert_eq!(validate_expiration(101, 100), Ok(()));
    assert_eq!(validate_expiration(100, 100), Err(ErrorCode::ExpirationInPast));
    assert_eq!(validate_expiration(-5, 100), Err(ErrorCode::ExpirationInPast));
}

#[test]
fn pre_and_post_expiry_gates() {
    assert_eq!(validate_not_expired(100, 99), Ok(()));
    assert_eq!(validate_not_expired(100, 100), Err(ErrorCode::OptionExpired));
    assert_eq!(validate_expired(100, 100), Ok(()));
    assert_eq!(validate_expired(100, 101), Ok(()));
    assert_eq!(validate_expired(100, 99), Err(ErrorCode::OptionNotExpired));
}

#[test]
fn vault_must_cover_request() {
    assert_eq!(validate_vault_balance(100, 100), Ok(()));
    assert_eq!(validate_vault_balance(99, 100), Err(ErrorCode::InsufficientCollateral));
}

#[test]
fn error_messages() {
    assert_eq!(ErrorCode::MathOverflow.message(), "Math operation overflow");
    assert_eq!(ErrorCode::NoTokensIssued.message(), "No tokens have been issued");
}
