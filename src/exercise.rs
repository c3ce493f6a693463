use vstd::prelude::*;

use crate::errors::ErrorCode;
use crate::math::{calculate_strike_payment, strike_payment};
use crate::option::{account_mismatch, OptionContext, OptionData};
use crate::token_actions::{carries_out, Authority, Holding, TokenAction};
use crate::validation::{validate_amount, validate_vault_balance};

verus! {

/// Exercising `amount` burns that many of the caller's option tokens, moves
/// the strike payment from the caller into the consideration vault, releases
/// `amount` collateral from the vault to the caller, and adds `amount` to the
/// exercised counter. The total supply stays as it is.
pub open spec fn exercise_outcome(ctx: OptionContext, amount: u64) -> Result<
    (OptionData, Seq<TokenAction>),
    ErrorCode,
> {
    let rec = ctx.option_context;
    if amount == 0 {
        Err(ErrorCode::InvalidAmount)
    } else {
        match account_mismatch(ctx) {
            Some(e) => Err(e),
            None => {
                if ctx.collateral_vault.amount < amount {
                    Err(ErrorCode::InsufficientCollateral)
                } else {
                    match strike_payment(amount, rec.strike_price, ctx.collateral_mint.decimals) {
                        Err(e) => Err(e),
                        Ok(payment) => {
                            if rec.exercised_amount + amount > u64::MAX {
                                Err(ErrorCode::MathOverflow)
                            } else {
                                Ok(
                                    (
                                        OptionData {
                                            exercised_amount: (rec.exercised_amount + amount) as u64,
                                            ..rec
                                        },
                                        seq![
                                            TokenAction::Burn { from: Holding::UserOption, amount },
                                            TokenAction::Transfer {
                                                from: Holding::UserConsideration,
                                                to: Holding::ConsiderationVault,
                                                amount: payment,
                                                authority: Authority::User,
                                            },
                                            TokenAction::Transfer {
                                                from: Holding::CollateralVault,
                                                to: Holding::UserCollateral,
                                                amount,
                                                authority: Authority::Series,
                                            },
                                        ],
                                    ),
                                )
                            }
                        },
                    }
                }
            },
        }
    }
}

/// Exercises `amount` options: the caller gives up option tokens and pays the
/// strike in consideration, and receives collateral from the vault.
/// Exercise is allowed at any time, after expiry too.
pub fn handler(ctx: &mut OptionContext, amount: u64) -> (r: Result<Vec<TokenAction>, ErrorCode>)
    ensures
        carries_out(*old(ctx), *final(ctx), r, exercise_outcome(*old(ctx), amount)),
{
    match validate_amount(amount) {
        Err(e) => return Err(e),
        Ok(()) => {},
    }
    match ctx.validate_accounts() {
        Err(e) => return Err(e),
        Ok(()) => {},
    }
    match validate_vault_balance(ctx.collateral_vault.amount, amount) {
        Err(e) => return Err(e),
        Ok(()) => {},
    }
    let payment = match calculate_strike_payment(
        amount,
        ctx.option_context.strike_price,
        ctx.collateral_mint.decimals,
    ) {
        Err(e) => return Err(e),
        Ok(p) => p,
    };
    let exercised_amount = match ctx.option_context.exercised_amount.checked_add(amount) {
        None => return Err(ErrorCode::MathOverflow),
        Some(s) => s,
    };
    let actions = vec![
        TokenAction::Burn { from: Holding::UserOption, amount },
        TokenAction::Transfer {
            from: Holding::UserConsideration,
            to: Holding::ConsiderationVault,
            amount: payment,
            authority: Authority::User,
        },
        TokenAction::Transfer {
            from: Holding::CollateralVault,
            to: Holding::UserCollateral,
            amount,
            authority: Authority::Series,
        },
    ];
    ctx.option_context.exercised_amount = exercised_amount;
    assert(actions@ =~= exercise_outcome(*old(ctx), amount)->Ok_0.1);
    Ok(actions)
}

} // verus!
