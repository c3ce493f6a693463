use vstd::prelude::*;

use crate::account_key::AccountKey;
use crate::errors::ErrorCode;
use crate::option::{OptionCreate, OptionData};
use crate::validation::{validate_expiration, validate_strike_price};

verus! {

/// A new series records its parameters and the token types and vaults
/// allocated for it, and starts with both counters at zero. Its expiration
/// must lie after `now` and its strike price must be positive.
pub open spec fn create_outcome(
    ctx: OptionCreate,
    collateral_mint_key: AccountKey,
    consideration_mint_key: AccountKey,
    strike_price: u64,
    expiration: i64,
    is_put: bool,
    now: i64,
) -> Result<OptionData, ErrorCode> {
    if expiration <= now {
        Err(ErrorCode::ExpirationInPast)
    } else if strike_price == 0 {
        Err(ErrorCode::InvalidStrikePrice)
    } else {
        Ok(
            OptionData {
                collateral_mint: collateral_mint_key,
                consideration_mint: consideration_mint_key,
                strike_price,
                expiration,
                is_put,
                bump: ctx.bump,
                option_mint: ctx.option_mint,
                redemption_mint: ctx.redemption_mint,
                collateral_vault: ctx.collateral_vault,
                consideration_vault: ctx.consideration_vault,
                total_supply: 0,
                exercised_amount: 0,
            },
        )
    }
}

/// Builds the record of a new series at time `now`.
pub fn handler(
    ctx: &OptionCreate,
    collateral_mint_key: AccountKey,
    consideration_mint_key: AccountKey,
    strike_price: u64,
    expiration: i64,
    is_put: bool,
    now: i64,
) -> (r: Result<OptionData, ErrorCode>)
    ensures
        r == create_outcome(
            *ctx,
            collateral_mint_key,
            consideration_mint_key,
            strike_price,
            expiration,
            is_put,
            now,
        ),
{
    match validate_expiration(expiration, now) {
        Err(e) => return Err(e),
        Ok(()) => {},
    }
    match validate_strike_price(strike_price) {
        Err(e) => return Err(e),
        Ok(()) => {},
    }
    Ok(
        OptionData {
            collateral_mint: collateral_mint_key,
            consideration_mint: consideration_mint_key,
            strike_price,
            expiration,
            is_put,
            bump: ctx.bump,
            option_mint: ctx.option_mint,
            redemption_mint: ctx.redemption_mint,
            collateral_vault: ctx.collateral_vault,
            consideration_vault: ctx.consideration_vault,
            total_supply: 0,
            exercised_amount: 0,
        },
    )
}

} // verus!
