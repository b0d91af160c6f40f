//! Creating the record of a new trading pair.
use vstd::prelude::*;
use crate::state::market::{Market, Pubkey};

verus! {

/// A fresh market for the given pair: the given references and fee rate, every
/// counter at zero and no pending match.
pub fn handler(
    authority: Pubkey,
    base_mint: Pubkey,
    quote_mint: Pubkey,
    base_vault: Pubkey,
    quote_vault: Pubkey,
    market_id: u64,
    fee_rate_bps: u16,
    bump: u8,
) -> (r: Market)
    ensures
        r == (Market {
            authority,
            base_mint,
            quote_mint,
            base_vault,
            quote_vault,
            market_id,
            fee_rate_bps,
            order_count: 0,
            orderbook_ref: Pubkey::zero_spec(),
            base_locked: 0,
            quote_locked: 0,
            active_bids: 0,
            active_asks: 0,
            settlement_count: 0,
            pending_maker: Pubkey::zero_spec(),
            pending_taker: Pubkey::zero_spec(),
            pending_maker_order_id: 0,
            pending_taker_order_id: 0,
            pending_execution_price: 0,
            pending_execution_amount: 0,
            pending_matched_at: 0,
            has_pending_match: false,
            bump,
        }),
{
    Market {
        authority,
        base_mint,
        quote_mint,
        base_vault,
        quote_vault,
        market_id,
        fee_rate_bps,
        order_count: 0,
        orderbook_ref: Pubkey::zero(),
        base_locked: 0,
        quote_locked: 0,
        active_bids: 0,
        active_asks: 0,
        settlement_count: 0,
        pending_maker: Pubkey::zero(),
        pending_taker: Pubkey::zero(),
        pending_maker_order_id: 0,
        pending_taker_order_id: 0,
        pending_execution_price: 0,
        pending_execution_amount: 0,
        pending_matched_at: 0,
        has_pending_match: false,
        bump,
    }
}

} // verus!
