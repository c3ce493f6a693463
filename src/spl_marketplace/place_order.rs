use vstd::prelude::*;

use crate::account_key::AccountKey;
use crate::math::{checked_scaled_product, scaled_product};
use crate::option::MintInfo;
use crate::spl_marketplace::errors::ErrorCode;
use crate::spl_marketplace::market::Market;
use crate::spl_marketplace::order::Order;

verus! {

/// What placing an order reads: the market and its address, the caller, the
/// token type deposited, the salt of the order's address and the time.
#[derive(Clone, Copy, Debug)]
pub struct PlaceOrder {
    pub user: AccountKey,
    pub market_key: AccountKey,
    pub market: Market,
    pub deposit_mint: MintInfo,
    pub order_bump: u8,
}

/// A placed order and what its owner deposits into its escrow.
#[derive(Clone, Copy, Debug)]
pub struct PlacedOrder {
    pub order: Order,
    pub escrow_amount: u64,
}

/// A buy order deposits `floor(price * size / 10^decimals)` quote tokens, a
/// sell order `size` base tokens. The order takes the market's next id, and
/// the market's counters each move on by one.
pub open spec fn place_outcome(
    ctx: PlaceOrder,
    price: u64,
    size: u64,
    is_buy: bool,
    now: i64,
) -> Result<(Market, PlacedOrder), ErrorCode> {
    let market = ctx.market;
    let expected = if is_buy {
        market.quote_mint
    } else {
        market.base_mint
    };
    if price == 0 {
        Err(ErrorCode::InvalidPrice)
    } else if size == 0 {
        Err(ErrorCode::InvalidAmount)
    } else if ctx.deposit_mint.key@ != expected@ {
        Err(ErrorCode::InvalidMint)
    } else if is_buy && scaled_product(price, size, ctx.deposit_mint.decimals) is None {
        Err(ErrorCode::MathOverflow)
    } else if market.next_order_id == u64::MAX || market.total_orders_placed == u64::MAX {
        Err(ErrorCode::MathOverflow)
    } else {
        let escrow_amount = if is_buy {
            scaled_product(price, size, ctx.deposit_mint.decimals)->Some_0
        } else {
            size
        };
        Ok(
            (
                Market {
                    next_order_id: (market.next_order_id + 1) as u64,
                    total_orders_placed: (market.total_orders_placed + 1) as u64,
                    ..market
                },
                PlacedOrder {
                    order: Order {
                        market: ctx.market_key,
                        order_id: market.next_order_id,
                        owner: ctx.user,
                        is_buy,
                        price,
                        size,
                        filled: 0,
                        bump: ctx.order_bump,
                        created_at: now,
                    },
                    escrow_amount,
                },
            ),
        )
    }
}

/// Places an order at time `now`: on success the market's counters move on
/// and the new order comes back with the amount to escrow; on failure
/// nothing changes.
pub fn handler(ctx: &mut PlaceOrder, price: u64, size: u64, is_buy: bool, now: i64) -> (r: Result<
    PlacedOrder,
    ErrorCode,
>)
    ensures
        match place_outcome(*old(ctx), price, size, is_buy, now) {
            Ok((market, placed)) => r == Ok::<PlacedOrder, ErrorCode>(placed) && *final(ctx) == (
            PlaceOrder { market, ..*old(ctx) }),
            Err(e) => r == Err::<PlacedOrder, ErrorCode>(e) && *final(ctx) == *old(ctx),
        },
{
    if price == 0 {
        return Err(ErrorCode::InvalidPrice);
    }
    if size == 0 {
        return Err(ErrorCode::InvalidAmount);
    }
    let expected = if is_buy {
        &ctx.market.quote_mint
    } else {
        &ctx.market.base_mint
    };
    if !ctx.deposit_mint.key.same_as(expected) {
        return Err(ErrorCode::InvalidMint);
    }
    let escrow_amount = if is_buy {
        match checked_scaled_product(price, size, ctx.deposit_mint.decimals) {
            None => return Err(ErrorCode::MathOverflow),
            Some(a) => a,
        }
    } else {
        size
    };
    let next_order_id = match ctx.market.next_order_id.checked_add(1) {
        None => return Err(ErrorCode::MathOverflow),
        Some(n) => n,
    };
    let total_orders_placed = match ctx.market.total_orders_placed.checked_add(1) {
        None => return Err(ErrorCode::MathOverflow),
        Some(n) => n,
    };
    let order = Order {
        market: ctx.market_key,
        order_id: ctx.market.next_order_id,
        owner: ctx.user,
        is_buy,
        price,
        size,
        filled: 0,
        bump: ctx.order_bump,
        created_at: now,
    };
    ctx.market.next_order_id = next_order_id;
    ctx.market.total_orders_placed = total_orders_placed;
    Ok(PlacedOrder { order, escrow_amount })
}

} // verus!
