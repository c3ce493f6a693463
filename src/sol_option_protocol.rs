use vstd::prelude::*;

use crate::account_key::AccountKey;
use crate::burn_paired::{self, burn_outcome};
use crate::create_series::{self, create_outcome};
use crate::errors::ErrorCode;
use crate::exercise::{self, exercise_outcome};
use crate::mint_options::{self, mint_outcome};
use crate::option::{OptionContext, OptionCreate, OptionData};
use crate::redeem::{self, redeem_outcome};
use crate::redeem_consideration::{self, claim_outcome};
use crate::token_actions::{carries_out, TokenAction};

verus! {

/// Creates a series: the record to store at the series' address.
pub fn create_option(
    ctx: &OptionCreate,
    collateral_mint: AccountKey,
    consideration_mint: AccountKey,
    strike_price: u64,
    expiration: i64,
    is_put: bool,
    now: i64,
) -> (r: Result<OptionData, ErrorCode>)
    ensures
        r == create_outcome(
            *ctx,
            collateral_mint,
            consideration_mint,
            strike_price,
            expiration,
            is_put,
            now,
        ),
{
    create_series::handler(
        ctx,
        collateral_mint,
        consideration_mint,
        strike_price,
        expiration,
        is_put,
        now,
    )
}

/// Deposits collateral and issues option and redemption tokens one for one.
pub fn mint(ctx: &mut OptionContext, amount: u64) -> (r: Result<Vec<TokenAction>, ErrorCode>)
    ensures
        carries_out(*old(ctx), *final(ctx), r, mint_outcome(*old(ctx), amount)),
{
    mint_options::handler(ctx, amount)
}

/// Burns option tokens and pays the strike to receive collateral.
pub fn exercise(ctx: &mut OptionContext, amount: u64) -> (r: Result<Vec<TokenAction>, ErrorCode>)
    ensures
        carries_out(*old(ctx), *final(ctx), r, exercise_outcome(*old(ctx), amount)),
{
    exercise::handler(ctx, amount)
}

/// After expiry, burns redemption tokens for a pro-rata share of both vaults.
pub fn redeem(ctx: &mut OptionContext, amount: u64, now: i64) -> (r: Result<
    Vec<TokenAction>,
    ErrorCode,
>)
    ensures
        carries_out(*old(ctx), *final(ctx), r, redeem_outcome(*old(ctx), amount, now)),
{
    redeem::handler(ctx, amount, now)
}

/// Burns both legs to take back collateral one for one, at any time.
pub fn burn(ctx: &mut OptionContext, amount: u64) -> (r: Result<Vec<TokenAction>, ErrorCode>)
    ensures
        carries_out(*old(ctx), *final(ctx), r, burn_outcome(*old(ctx), amount)),
{
    burn_paired::handler(ctx, amount)
}

/// Pays a holder of redemption tokens their share of the collected strike
/// payments, before expiry too.
pub fn redeem_consideration(ctx: &mut OptionContext) -> (r: Result<Vec<TokenAction>, ErrorCode>)
    ensures
        carries_out(*old(ctx), *final(ctx), r, claim_outcome(*old(ctx))),
{
    redeem_consideration::handler(ctx)
}

} // verus!
