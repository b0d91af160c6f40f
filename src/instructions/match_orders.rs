//! Triggering a matching pass, and recording what it disclosed as the
//! market's pending match.
use vstd::prelude::*;
use crate::errors::DuskError;
use crate::orderbook::MatchResult;
use crate::state::market::{Market, Pubkey};

verus! {

/// Whether a matching pass may be requested: the market must show at least one
/// bid and one ask, and hold no pending match that a new one would replace.
pub fn handler(market: &Market) -> (r: Result<(), DuskError>)
    ensures
        r == (if market.active_bids == 0 || market.active_asks == 0 {
            Err(DuskError::NoMatchingOrders)
        } else if market.has_pending_match {
            Err(DuskError::ComputationNotReady)
        } else {
            Ok(())
        }),
{
    if market.active_bids == 0 || market.active_asks == 0 {
        return Err(DuskError::NoMatchingOrders);
    }
    if market.has_pending_match {
        return Err(DuskError::ComputationNotReady);
    }
    Ok(())
}

/// The identity whose halves are `lo` and `hi`.
pub fn reconstruct_pubkey(lo: u128, hi: u128) -> (r: Pubkey)
    ensures
        r == (Pubkey { lo, hi }),
{
    Pubkey { lo, hi }
}

/// `market` with the disclosed match `result`, taken at `now`, stored as its
/// pending match, and one bid and one ask fewer counted as active.
pub open spec fn captured(market: Market, result: MatchResult, now: i64) -> Market {
    Market {
        active_bids: if market.active_bids > 0 {
            (market.active_bids - 1) as u32
        } else {
            0
        },
        active_asks: if market.active_asks > 0 {
            (market.active_asks - 1) as u32
        } else {
            0
        },
        pending_maker: Pubkey { lo: result.maker_lo, hi: result.maker_hi },
        pending_taker: Pubkey { lo: result.taker_lo, hi: result.taker_hi },
        pending_maker_order_id: result.maker_order_id,
        pending_taker_order_id: result.taker_order_id,
        pending_execution_price: result.execution_price,
        pending_execution_amount: result.execution_amount,
        pending_matched_at: now,
        has_pending_match: true,
        ..market
    }
}

/// Records the result of a matching pass as the market's pending match.
/// A result without a trade is refused and changes nothing.
pub fn callback_handler(market: &mut Market, result: &MatchResult, now: i64) -> (r: Result<
    (),
    DuskError,
>)
    ensures
        !result.matched ==> r == Err::<(), DuskError>(DuskError::NoMatchingOrders) && *final(market)
            == *old(market),
        result.matched ==> r is Ok && *final(market) == captured(*old(market), *result, now),
{
    if !result.matched {
        return Err(DuskError::NoMatchingOrders);
    }
    market.active_bids = market.active_bids.saturating_sub(1);
    market.active_asks = market.active_asks.saturating_sub(1);
    market.pending_maker = reconstruct_pubkey(result.maker_lo, result.maker_hi);
    market.pending_taker = reconstruct_pubkey(result.taker_lo, result.taker_hi);
    market.pending_maker_order_id = result.maker_order_id;
    market.pending_taker_order_id = result.taker_order_id;
    market.pending_execution_price = result.execution_price;
    market.pending_execution_amount = result.execution_amount;
    market.pending_matched_at = now;
    market.has_pending_match = true;
    Ok(())
}

} // verus!
