use vstd::prelude::*;

use crate::account_key::AccountKey;
use crate::math::{checked_scaled_product, scaled_product};
use crate::option::MintInfo;
use crate::spl_marketplace::errors::ErrorCode;
use crate::spl_marketplace::order::{remaining_of, Order};

verus! {

/// What filling reads: the market's address, the maker's order, and the two
/// token types of the market.
#[derive(Clone, Copy, Debug)]
pub struct FillOrder {
    pub market_key: AccountKey,
    pub maker_order: Order,
    pub base_mint: MintInfo,
    pub quote_mint: MintInfo,
}

/// The two legs of a fill. Against a buy order the taker gives the base
/// tokens and receives the quote tokens from escrow; against a sell order
/// the taker receives the base tokens from escrow and gives the quote tokens.
#[derive(Clone, Copy, Debug, PartialEq, Eq, Structural)]
pub struct Fill {
    pub base_amount: u64,
    pub quote_amount: u64,
}

/// A fill of `fill_size` base tokens, between one and what is left of the
/// order, costs `floor(price * fill_size / 10^base_decimals)` quote tokens
/// and adds `fill_size` to what the order has filled.
pub open spec fn fill_outcome(ctx: FillOrder, fill_size: u64) -> Result<(Order, Fill), ErrorCode> {
    let order = ctx.maker_order;
    if order.market@ != ctx.market_key@ {
        Err(ErrorCode::InvalidMarket)
    } else if fill_size == 0 {
        Err(ErrorCode::InvalidAmount)
    } else if fill_size > remaining_of(order) {
        Err(ErrorCode::InvalidFillSize)
    } else {
        match scaled_product(order.price, fill_size, ctx.base_mint.decimals) {
            None => Err(ErrorCode::MathOverflow),
            Some(quote_amount) => {
                if order.filled + fill_size > u64::MAX {
                    Err(ErrorCode::MathOverflow)
                } else {
                    Ok(
                        (
                            Order { filled: (order.filled + fill_size) as u64, ..order },
                            Fill { base_amount: fill_size, quote_amount },
                        ),
                    )
                }
            },
        }
    }
}

/// Fills part or all of the maker's order: on success the order records the
/// fill and its two legs come back; on failure nothing changes.
pub fn handler(ctx: &mut FillOrder, fill_size: u64) -> (r: Result<Fill, ErrorCode>)
    ensures
        match fill_outcome(*old(ctx), fill_size) {
            Ok((order, fill)) => r == Ok::<Fill, ErrorCode>(fill) && *final(ctx) == (FillOrder {
                maker_order: order,
                ..*old(ctx)
            }),
            Err(e) => r == Err::<Fill, ErrorCode>(e) && *final(ctx) == *old(ctx),
        },
{
    if !ctx.maker_order.market.same_as(&ctx.market_key) {
        return Err(ErrorCode::InvalidMarket);
    }
    let remaining = ctx.maker_order.remaining();
    if fill_size == 0 {
        return Err(ErrorCode::InvalidAmount);
    }
    if fill_size > remaining {
        return Err(ErrorCode::InvalidFillSize);
    }
    let quote_amount = match checked_scaled_product(
        ctx.maker_order.price,
        fill_size,
        ctx.base_mint.decimals,
    ) {
        None => return Err(ErrorCode::MathOverflow),
        Some(q) => q,
    };
    let filled = match ctx.maker_order.filled.checked_add(fill_size) {
        None => return Err(ErrorCode::MathOverflow),
        Some(f) => f,
    };
    ctx.maker_order.filled = filled;
    Ok(Fill { base_amount: fill_size, quote_amount })
}

} // verus!
