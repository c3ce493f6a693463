use vstd::prelude::*;

pub mod cancel_order;
pub mod create_market;
pub mod errors;
pub mod fill_order;
pub mod market;
pub mod order;
pub mod place_order;

use crate::spl_marketplace::cancel_order::{cancel_outcome, CancelOrder};
use crate::spl_marketplace::create_market::CreateMarket;
use crate::spl_marketplace::errors::ErrorCode;
use crate::spl_marketplace::fill_order::{fill_outcome, Fill, FillOrder};
use crate::spl_marketplace::market::Market;
use crate::spl_marketplace::place_order::{place_outcome, PlaceOrder, PlacedOrder};

verus! {

/// Creates the market for a pair of token types.
pub fn create_market(ctx: &CreateMarket) -> (r: Market)
    ensures
        r == (Market {
            base_mint: ctx.base_mint.key,
            quote_mint: ctx.quote_mint.key,
            bump: ctx.bump,
            next_order_id: 0,
            total_orders_placed: 0,
            total_orders_filled: 0,
            total_base_volume: 0,
            total_quote_volume: 0,
        }),
{
    create_market::handler(ctx)
}

/// Places a limit order and says how much to escrow for it.
pub fn place_order(ctx: &mut PlaceOrder, price: u64, size: u64, is_buy: bool, now: i64) -> (r:
    Result<PlacedOrder, ErrorCode>)
    ensures
        match place_outcome(*old(ctx), price, size, is_buy, now) {
            Ok((market, placed)) => r == Ok::<PlacedOrder, ErrorCode>(placed) && *final(ctx) == (
            PlaceOrder { market, ..*old(ctx) }),
            Err(e) => r == Err::<PlacedOrder, ErrorCode>(e) && *final(ctx) == *old(ctx),
        },
{
    place_order::handler(ctx, price, size, is_buy, now)
}

/// Cancels an order and says how much escrow goes back to its owner.
pub fn cancel_order(ctx: &CancelOrder) -> (r: Result<u64, ErrorCode>)
    ensures
        r == cancel_outcome(*ctx),
{
    cancel_order::handler(ctx)
}

/// Fills part of a resting order.
pub fn fill_order(ctx: &mut FillOrder, fill_size: u64) -> (r: Result<Fill, ErrorCode>)
    ensures
        match fill_outcome(*old(ctx), fill_size) {
            Ok((order, fill)) => r == Ok::<Fill, ErrorCode>(fill) && *final(ctx) == (FillOrder {
                maker_order: order,
                ..*old(ctx)
            }),
            Err(e) => r == Err::<Fill, ErrorCode>(e) && *final(ctx) == *old(ctx),
        },
{
    fill_order::handler(ctx, fill_size)
}

} // verus!
