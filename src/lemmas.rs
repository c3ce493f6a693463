use vstd::prelude::*;

use crate::burn_paired::burn_outcome;
use crate::errors::ErrorCode;
use crate::exercise::exercise_outcome;
use crate::math::{pro_rata, pro_rata_share, pro_rata_share_wide, strike_payment};
use crate::mint_options::mint_outcome;
use crate::option::{account_mismatch, OptionContext, OptionData};
use crate::redeem::{payout_actions, redeem_outcome};
use crate::redeem_consideration::{claim_outcome, claimable};
use crate::token_actions::{apply_action, execute, settle, Holding, TokenAction};

verus! {

/// Settling three actions applies them one after the other.
proof fn lemma_settle_three(ctx: OptionContext, a: TokenAction, b: TokenAction, c: TokenAction)
    ensures
        settle(ctx, seq![a, b, c]) == (match apply_action(ctx, a) {
            None => None,
            Some(c1) => match apply_action(c1, b) {
                None => None,
                Some(c2) => apply_action(c2, c),
            },
        }),
{
    let s = seq![a, b, c];
    assert(s.subrange(1, 3) =~= seq![b, c]);
    assert(seq![b, c].subrange(1, 2) =~= seq![c]);
    assert(seq![c].subrange(1, 1) =~= Seq::<TokenAction>::empty());
    reveal_with_fuel(settle, 4);
}

/// A mint that takes effect raises the total supply, the caller's option and
/// redemption balances, both token supplies and the collateral vault by
/// exactly `amount`, takes `amount` from the caller's collateral, and leaves
/// everything else as it was.
pub proof fn lemma_mint_effects(ctx: OptionContext, amount: u64)
    requires
        execute(ctx, mint_outcome(ctx, amount)) is Some,
    ensures
        ({
            let after = execute(ctx, mint_outcome(ctx, amount))->Some_0;
            &&& after.option_context.total_supply == ctx.option_context.total_supply + amount
            &&& after.option_context.exercised_amount == ctx.option_context.exercised_amount
            &&& after.user_option_account.amount == ctx.user_option_account.amount + amount
            &&& after.user_redemption_account.amount == ctx.user_redemption_account.amount
                + amount
            &&& after.option_mint.supply == ctx.option_mint.supply + amount
            &&& after.redemption_mint.supply == ctx.redemption_mint.supply + amount
            &&& after.collateral_vault.amount == ctx.collateral_vault.amount + amount
            &&& after.user_collateral_account.amount == ctx.user_collateral_account.amount
                - amount
            &&& after.consideration_vault == ctx.consideration_vault
            &&& after.user_consideration_account == ctx.user_consideration_account
        }),
{
    let out = mint_outcome(ctx, amount)->Ok_0;
    lemma_settle_three(
        OptionContext { option_context: out.0, ..ctx },
        out.1[0],
        out.1[1],
        out.1[2],
    );
    assert(out.1 =~= seq![out.1[0], out.1[1], out.1[2]]);
}

/// Burning a pair right after minting the same amount restores everything:
/// the caller's balances, both vaults, both token supplies and the record,
/// total supply included.
pub proof fn lemma_burn_undoes_mint(ctx: OptionContext, amount: u64)
    requires
        execute(ctx, mint_outcome(ctx, amount)) is Some,
    ensures
        ({
            let minted = execute(ctx, mint_outcome(ctx, amount))->Some_0;
            execute(minted, burn_outcome(minted, amount)) == Some(ctx)
        }),
{
    let out = mint_outcome(ctx, amount)->Ok_0;
    lemma_mint_effects(ctx, amount);
    lemma_settle_three(
        OptionContext { option_context: out.0, ..ctx },
        out.1[0],
        out.1[1],
        out.1[2],
    );
    assert(out.1 =~= seq![out.1[0], out.1[1], out.1[2]]);
    let minted = execute(ctx, mint_outcome(ctx, amount))->Some_0;
    assert(account_mismatch(minted) == account_mismatch(ctx));
    let back = burn_outcome(minted, amount)->Ok_0;
    lemma_settle_three(
        OptionContext { option_context: back.0, ..minted },
        back.1[0],
        back.1[1],
        back.1[2],
    );
    assert(back.1 =~= seq![back.1[0], back.1[1], back.1[2]]);
    assert(execute(minted, burn_outcome(minted, amount))->Some_0 == ctx);
}

/// An exercise that takes effect burns `amount` of the caller's option
/// tokens, moves the strike payment from the caller into the consideration
/// vault, moves `amount` collateral from the vault to the caller, adds
/// `amount` to the exercised counter, and leaves the total supply and the
/// redemption tokens alone.
pub proof fn lemma_exercise_effects(ctx: OptionContext, amount: u64)
    requires
        execute(ctx, exercise_outcome(ctx, amount)) is Some,
    ensures
        ({
            let after = execute(ctx, exercise_outcome(ctx, amount))->Some_0;
            let payment = strike_payment(
                amount,
                ctx.option_context.strike_price,
                ctx.collateral_mint.decimals,
            )->Ok_0;
            &&& strike_payment(
                amount,
                ctx.option_context.strike_price,
                ctx.collateral_mint.decimals,
            ) is Ok
            &&& after.user_option_account.amount == ctx.user_option_account.amount - amount
            &&& after.option_mint.supply == ctx.option_mint.supply - amount
            &&& after.consideration_vault.amount == ctx.consideration_vault.amount + payment
            &&& after.user_consideration_account.amount
                == ctx.user_consideration_account.amount - payment
            &&& after.collateral_vault.amount == ctx.collateral_vault.amount - amount
            &&& after.user_collateral_account.amount == ctx.user_collateral_account.amount
                + amount
            &&& after.option_context.exercised_amount == ctx.option_context.exercised_amount
                + amount
            &&& after.option_context.total_supply == ctx.option_context.total_supply
            &&& after.user_redemption_account == ctx.user_redemption_account
            &&& after.redemption_mint == ctx.redemption_mint
        }),
{
    let out = exercise_outcome(ctx, amount)->Ok_0;
    lemma_settle_three(
        OptionContext { option_context: out.0, ..ctx },
        out.1[0],
        out.1[1],
        out.1[2],
    );
    assert(out.1 =~= seq![out.1[0], out.1[1], out.1[2]]);
}

/// A proportional share is the floor of the exact quotient: it never rounds
/// up, and it never falls a whole unit short. An empty pool gives nothing.
pub proof fn lemma_share_rounds_down(vault_balance: u64, user_amount: u64, total_supply: u64)
    requires
        total_supply > 0,
    ensures
        ({
            let s = pro_rata(vault_balance as nat, user_amount as nat, total_supply as nat);
            &&& s * total_supply <= vault_balance * user_amount
            &&& vault_balance * user_amount < (s + 1) * total_supply
        }),
        vault_balance == 0 ==> pro_rata(vault_balance as nat, user_amount as nat, total_supply as nat)
            == 0,
        pro_rata_share(vault_balance, user_amount, total_supply) is Ok ==> pro_rata_share(
            vault_balance,
            user_amount,
            total_supply,
        )->Ok_0 == pro_rata(vault_balance as nat, user_amount as nat, total_supply as nat),
        pro_rata_share_wide(vault_balance, user_amount, total_supply) is Ok ==> pro_rata_share_wide(
            vault_balance,
            user_amount,
            total_supply,
        )->Ok_0 == pro_rata(vault_balance as nat, user_amount as nat, total_supply as nat),
{
    let p: int = vault_balance * user_amount;
    let t: int = total_supply as int;
    let q: int = p / t;
    assert(q * t <= p && p < (q + 1) * t) by (nonlinear_arith)
        requires
            t > 0,
            p >= 0,
            q == p / t,
    ;
}

/// A redemption burns the redeemed tokens and pays from each vault exactly
/// the floor of its pro-rata share against the total supply, skipping a
/// payout of zero; an empty collateral vault pays no collateral.
pub proof fn lemma_redeem_payouts(ctx: OptionContext, amount: u64, now: i64)
    requires
        redeem_outcome(ctx, amount, now) is Ok,
    ensures
        ({
            let supply = ctx.option_context.total_supply as nat;
            let collateral = pro_rata(ctx.collateral_vault.amount as nat, amount as nat, supply);
            let consideration = pro_rata(
                ctx.consideration_vault.amount as nat,
                amount as nat,
                supply,
            );
            &&& supply > 0
            &&& redeem_outcome(ctx, amount, now)->Ok_0.0 == ctx.option_context
            &&& redeem_outcome(ctx, amount, now)->Ok_0.1 == seq![
                TokenAction::Burn { from: Holding::UserRedemption, amount },
            ] + payout_actions(collateral as u64, consideration as u64)
            &&& ctx.collateral_vault.amount == 0 ==> collateral == 0
        }),
{
    lemma_share_rounds_down(ctx.collateral_vault.amount, amount, ctx.option_context.total_supply);
    lemma_share_rounds_down(
        ctx.consideration_vault.amount,
        amount,
        ctx.option_context.total_supply,
    );
}

/// Both share computations fail with `NoTokensIssued` whenever nothing was
/// issued, and give `0` without error for an empty pool whenever something was.
pub proof fn lemma_share_without_supply_or_balance(
    vault_balance: u64,
    user_amount: u64,
    total_supply: u64,
)
    ensures
        total_supply == 0 ==> pro_rata_share(vault_balance, user_amount, total_supply) == Err::<
            u64,
            ErrorCode,
        >(ErrorCode::NoTokensIssued),
        total_supply == 0 ==> pro_rata_share_wide(vault_balance, user_amount, total_supply)
            == Err::<u64, ErrorCode>(ErrorCode::NoTokensIssued),
        total_supply > 0 && vault_balance == 0 ==> pro_rata_share(
            vault_balance,
            user_amount,
            total_supply,
        ) == Ok::<u64, ErrorCode>(0),
        total_supply > 0 && vault_balance == 0 ==> pro_rata_share_wide(
            vault_balance,
            user_amount,
            total_supply,
        ) == Ok::<u64, ErrorCode>(0),
{
}

/// A claim leaves the record, and with it the total supply, as it was, and
/// never pays more than the consideration vault holds. So a second claim
/// right after the first divides by the same total supply, against the
/// vault the first one shrank, and the two together never overdraw it.
pub proof fn lemma_repeated_claims(ctx: OptionContext)
    requires
        execute(ctx, claim_outcome(ctx)) is Some,
    ensures
        ({
            let c1 = execute(ctx, claim_outcome(ctx))->Some_0;
            &&& c1.option_context == ctx.option_context
            &&& c1.user_redemption_account == ctx.user_redemption_account
            &&& 0 < claimable(ctx) <= ctx.consideration_vault.amount
            &&& c1.consideration_vault.amount == ctx.consideration_vault.amount - claimable(ctx)
            &&& (execute(c1, claim_outcome(c1)) is Some ==> {
                let c2 = execute(c1, claim_outcome(c1))->Some_0;
                &&& c2.option_context.total_supply == ctx.option_context.total_supply
                &&& 0 < claimable(c1) <= c1.consideration_vault.amount
                &&& c2.consideration_vault.amount == ctx.consideration_vault.amount - claimable(
                    ctx,
                ) - claimable(c1)
            })
        }),
{
    let out = claim_outcome(ctx)->Ok_0;
    assert(out.1.subrange(1, 1) =~= Seq::<TokenAction>::empty());
    reveal_with_fuel(settle, 2);
    let c1 = execute(ctx, claim_outcome(ctx))->Some_0;
    if execute(c1, claim_outcome(c1)) is Some {
        let out2 = claim_outcome(c1)->Ok_0;
        assert(out2.1.subrange(1, 1) =~= Seq::<TokenAction>::empty());
    }
}

/// A zero amount is an input error, rejected before anything of the series
/// is read: mint, exercise, burn and redeem all fail with `InvalidAmount`
/// whatever accounts were supplied and whatever the time.
pub proof fn lemma_zero_amount_rejected_first(ctx: OptionContext, now: i64)
    ensures
        mint_outcome(ctx, 0) == Err::<(OptionData, Seq<TokenAction>), ErrorCode>(
            ErrorCode::InvalidAmount,
        ),
        exercise_outcome(ctx, 0) == Err::<(OptionData, Seq<TokenAction>), ErrorCode>(
            ErrorCode::InvalidAmount,
        ),
        burn_outcome(ctx, 0) == Err::<(OptionData, Seq<TokenAction>), ErrorCode>(
            ErrorCode::InvalidAmount,
        ),
        redeem_outcome(ctx, 0, now) == Err::<(OptionData, Seq<TokenAction>), ErrorCode>(
            ErrorCode::InvalidAmount,
        ),
{
}

/// The parts of a record that name the series stay as they were created.
pub open spec fn same_series(a: OptionData, b: OptionData) -> bool {
    &&& a.collateral_mint == b.collateral_mint
    &&& a.consideration_mint == b.consideration_mint
    &&& a.strike_price == b.strike_price
    &&& a.expiration == b.expiration
    &&& a.is_put == b.is_put
    &&& a.bump == b.bump
    &&& a.option_mint == b.option_mint
    &&& a.redemption_mint == b.redemption_mint
    &&& a.collateral_vault == b.collateral_vault
    &&& a.consideration_vault == b.consideration_vault
}

/// No operation on an existing series changes its parameters, its token
/// types or its vaults: only the two counters ever move.
pub proof fn lemma_series_identity_fixed(ctx: OptionContext, amount: u64, now: i64)
    ensures
        mint_outcome(ctx, amount) is Ok ==> same_series(
            mint_outcome(ctx, amount)->Ok_0.0,
            ctx.option_context,
        ),
        exercise_outcome(ctx, amount) is Ok ==> same_series(
            exercise_outcome(ctx, amount)->Ok_0.0,
            ctx.option_context,
        ),
        burn_outcome(ctx, amount) is Ok ==> same_series(
            burn_outcome(ctx, amount)->Ok_0.0,
            ctx.option_context,
        ),
        redeem_outcome(ctx, amount, now) is Ok ==> redeem_outcome(ctx, amount, now)->Ok_0.0
            == ctx.option_context,
        claim_outcome(ctx) is Ok ==> claim_outcome(ctx)->Ok_0.0 == ctx.option_context,
{
}

/// Every checked counter update fails at its boundary instead of wrapping:
/// a mint past the largest total supply, a burn of more than the total
/// supply, and an exercise past the largest exercised counter all fail with
/// `MathOverflow`, and a failed operation settles nothing.
pub proof fn lemma_counters_never_wrap(ctx: OptionContext, amount: u64)
    requires
        account_mismatch(ctx) is None,
        amount > 0,
    ensures
        ctx.option_context.total_supply + amount > u64::MAX ==> mint_outcome(ctx, amount) == Err::<
            (OptionData, Seq<TokenAction>),
            ErrorCode,
        >(ErrorCode::MathOverflow),
        ctx.collateral_vault.amount >= amount && ctx.option_context.total_supply < amount
            ==> burn_outcome(ctx, amount) == Err::<
            (OptionData, Seq<TokenAction>),
            ErrorCode,
        >(ErrorCode::MathOverflow),
        ctx.collateral_vault.amount >= amount && strike_payment(
            amount,
            ctx.option_context.strike_price,
            ctx.collateral_mint.decimals,
        ) is Ok && ctx.option_context.exercised_amount + amount > u64::MAX ==> exercise_outcome(
            ctx,
            amount,
        ) == Err::<(OptionData, Seq<TokenAction>), ErrorCode>(
            ErrorCode::MathOverflow,
        ),
        mint_outcome(ctx, amount) is Err ==> execute(ctx, mint_outcome(ctx, amount)) is None,
        burn_outcome(ctx, amount) is Err ==> execute(ctx, burn_outcome(ctx, amount)) is None,
        exercise_outcome(ctx, amount) is Err ==> execute(ctx, exercise_outcome(ctx, amount))
            is None,
{
}

} // verus!
