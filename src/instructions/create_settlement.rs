//! Materialises the market's pending match as a settlement record.
use vstd::prelude::*;
use crate::errors::DuskError;
use crate::instructions::match_orders::captured;
use crate::orderbook::MatchResult;
use crate::state::market::{Market, Pubkey};
use crate::state::settlement::TradeSettlement;

verus! {

/// The unsettled record made from `market`'s pending match.
pub open spec fn settlement_from_pending(market: Market, market_key: Pubkey, bump: u8) -> TradeSettlement {
    TradeSettlement {
        market: market_key,
        maker: market.pending_maker,
        taker: market.pending_taker,
        maker_order_id: market.pending_maker_order_id,
        taker_order_id: market.pending_taker_order_id,
        execution_price: market.pending_execution_price,
        execution_amount: market.pending_execution_amount,
        maker_is_buy: false,
        settled: false,
        matched_at: market.pending_matched_at,
        settled_at: 0,
        bump,
    }
}

/// `market` after its pending match has been consumed: one more settlement
/// counted (saturating) and the pending slot cleared.
pub open spec fn pending_cleared(market: Market) -> Market {
    Market {
        settlement_count: if market.settlement_count < u64::MAX {
            (market.settlement_count + 1) as u64
        } else {
            u64::MAX
        },
        has_pending_match: false,
        pending_maker: Pubkey::zero_spec(),
        pending_taker: Pubkey::zero_spec(),
        pending_maker_order_id: 0,
        pending_taker_order_id: 0,
        pending_execution_price: 0,
        pending_execution_amount: 0,
        pending_matched_at: 0,
        ..market
    }
}

/// Turns the pending match of the market `market_key` into a new unsettled
/// record and clears the pending slot. The maker is always the selling side.
/// Refused, with nothing changed, when no match is pending.
pub fn handler(market: &mut Market, market_key: Pubkey, bump: u8) -> (r: Result<
    TradeSettlement,
    DuskError,
>)
    ensures
        !old(market).has_pending_match ==> r == Err::<TradeSettlement, DuskError>(
            DuskError::NoMatchingOrders,
        ) && *final(market) == *old(market),
        old(market).has_pending_match ==> r == Ok::<TradeSettlement, DuskError>(
            settlement_from_pending(*old(market), market_key, bump),
        ) && *final(market) == pending_cleared(*old(market)),
{
    if !market.has_pending_match {
        return Err(DuskError::NoMatchingOrders);
    }
    market.settlement_count = market.settlement_count.saturating_add(1);
    let settlement = TradeSettlement {
        market: market_key,
        maker: market.pending_maker,
        taker: market.pending_taker,
        maker_order_id: market.pending_maker_order_id,
        taker_order_id: market.pending_taker_order_id,
        execution_price: market.pending_execution_price,
        execution_amount: market.pending_execution_amount,
        maker_is_buy: false,
        settled: false,
        matched_at: market.pending_matched_at,
        settled_at: 0,
        bump,
    };
    market.has_pending_match = false;
    market.pending_maker = Pubkey::zero();
    market.pending_taker = Pubkey::zero();
    market.pending_maker_order_id = 0;
    market.pending_taker_order_id = 0;
    market.pending_execution_price = 0;
    market.pending_execution_amount = 0;
    market.pending_matched_at = 0;
    Ok(settlement)
}

/// A settlement record made right after a match was captured carries that
/// match exactly: its counterparties, order ids, terms and time, with the ask
/// as the selling maker.
pub proof fn lemma_settlement_records_captured_match(
    market: Market,
    result: MatchResult,
    now: i64,
    market_key: Pubkey,
    bump: u8,
)
    ensures
        ({
            let st = settlement_from_pending(captured(market, result, now), market_key, bump);
            &&& st.market == market_key
            &&& st.maker == (Pubkey { lo: result.maker_lo, hi: result.maker_hi })
            &&& st.taker == (Pubkey { lo: result.taker_lo, hi: result.taker_hi })
            &&& st.maker_order_id == result.maker_order_id
            &&& st.taker_order_id == result.taker_order_id
            &&& st.execution_price == result.execution_price
            &&& st.execution_amount == result.execution_amount
            &&& st.matched_at == now
            &&& !st.maker_is_buy && !st.settled
        }),
{
}

} // verus!
