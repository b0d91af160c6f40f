//! Turns a settlement record into balance movements between buyer and seller.
use vstd::prelude::*;
use crate::errors::DuskError;
use crate::orderbook::PRICE_SCALE;
use crate::state::market::{fee_of, Market, Pubkey, BPS_DENOMINATOR};
use crate::state::settlement::{lemma_u64_product_fits, quote_amount_of, TradeSettlement};
use crate::state::user_position::{saturating_diff, UserPosition};

verus! {

/// The seller after delivering `base` and receiving `quote - fee`.
pub open spec fn seller_after(seller: UserPosition, base: int, quote: int, fee: int) -> UserPosition {
    UserPosition {
        base_deposited: (seller.base_deposited - base) as u64,
        base_locked: saturating_diff(seller.base_locked, base as u64),
        quote_deposited: (seller.quote_deposited + (quote - fee)) as u64,
        ..seller
    }
}

/// The buyer after paying `quote` and receiving `base`.
pub open spec fn buyer_after(buyer: UserPosition, base: int, quote: int) -> UserPosition {
    UserPosition {
        quote_deposited: (buyer.quote_deposited - quote) as u64,
        quote_locked: saturating_diff(buyer.quote_locked, quote as u64),
        base_deposited: (buyer.base_deposited + base) as u64,
        ..buyer
    }
}

/// Settling `st` in the market `market_key` with the given fee rate: the
/// settled record and the new maker and taker positions, or why it is refused.
pub open spec fn settle_spec(
    st: TradeSettlement,
    market_key: Pubkey,
    fee_rate_bps: u16,
    maker: UserPosition,
    taker: UserPosition,
    now: i64,
) -> Result<(TradeSettlement, UserPosition, UserPosition), DuskError> {
    let base = st.execution_amount as int;
    let quote = quote_amount_of(st.execution_amount, st.execution_price);
    let fee = fee_of(quote, fee_rate_bps);
    let buyer = if st.maker_is_buy {
        maker
    } else {
        taker
    };
    let seller = if st.maker_is_buy {
        taker
    } else {
        maker
    };
    if st.market != market_key {
        Err(DuskError::InvalidMarketConfig)
    } else if st.settled {
        Err(DuskError::TradeAlreadySettled)
    } else if quote > u64::MAX {
        Err(DuskError::MathOverflow)
    } else if seller.base_available_spec() < base || buyer.quote_available_spec() < quote {
        Err(DuskError::InsufficientBalance)
    } else if fee > quote || seller.quote_deposited + (quote - fee) > u64::MAX
        || buyer.base_deposited + base > u64::MAX {
        Err(DuskError::MathOverflow)
    } else {
        let done = TradeSettlement { settled: true, settled_at: now, ..st };
        let seller2 = seller_after(seller, base, quote, fee);
        let buyer2 = buyer_after(buyer, base, quote);
        if st.maker_is_buy {
            Ok((done, buyer2, seller2))
        } else {
            Ok((done, seller2, buyer2))
        }
    }
}

/// Settles a matched trade: the seller delivers the execution amount of base
/// and receives the quote amount less the market fee; the buyer pays the quote
/// amount and receives the base. Reserved balances are released by the same
/// amounts. The maker is the buyer when `maker_is_buy`, else the seller.
///
/// Refused, with nothing changed, when the record belongs to another market,
/// is already settled, when the seller's available base or the buyer's
/// available quote falls short, or when any amount leaves the `u64` range.
pub fn handler(
    market: &Market,
    market_key: Pubkey,
    settlement: &mut TradeSettlement,
    maker_position: &mut UserPosition,
    taker_position: &mut UserPosition,
    now: i64,
) -> (r: Result<(), DuskError>)
    ensures
        match settle_spec(
            *old(settlement),
            market_key,
            market.fee_rate_bps,
            *old(maker_position),
            *old(taker_position),
            now,
        ) {
            Ok((st, maker, taker)) => r is Ok && *final(settlement) == st && *final(maker_position)
                == maker && *final(taker_position) == taker,
            Err(e) => r == Err::<(), DuskError>(e) && *final(settlement) == *old(settlement)
                && *final(maker_position) == *old(maker_position) && *final(taker_position)
                == *old(taker_position),
        },
{
    if settlement.market != market_key {
        return Err(DuskError::InvalidMarketConfig);
    }
    if settlement.settled {
        return Err(DuskError::TradeAlreadySettled);
    }
    let base_amount = settlement.execution_amount;
    proof {
        lemma_u64_product_fits(settlement.execution_amount, settlement.execution_price);
    }
    let wide_quote = settlement.execution_amount as u128 * settlement.execution_price as u128
        / PRICE_SCALE as u128;
    if wide_quote > u64::MAX as u128 {
        return Err(DuskError::MathOverflow);
    }
    let quote_amount = settlement.calculate_quote_amount();
    let maker_is_buy = settlement.maker_is_buy;
    let buyer = if maker_is_buy {
        *maker_position
    } else {
        *taker_position
    };
    let seller = if maker_is_buy {
        *taker_position
    } else {
        *maker_position
    };
    if seller.base_available() < base_amount || buyer.quote_available() < quote_amount {
        return Err(DuskError::InsufficientBalance);
    }
    proof {
        lemma_u64_product_fits(quote_amount, market.fee_rate_bps as u64);
    }
    let wide_fee = quote_amount as u128 * market.fee_rate_bps as u128 / BPS_DENOMINATOR as u128;
    if wide_fee > quote_amount as u128 {
        return Err(DuskError::MathOverflow);
    }
    let fee = market.calculate_fee(quote_amount);
    let quote_after_fee = quote_amount - fee;
    let seller_quote = match seller.quote_deposited.checked_add(quote_after_fee) {
        Some(v) => v,
        None => {
            return Err(DuskError::MathOverflow);
        },
    };
    let buyer_base = match buyer.base_deposited.checked_add(base_amount) {
        Some(v) => v,
        None => {
            return Err(DuskError::MathOverflow);
        },
    };
    let mut new_seller = seller;
    new_seller.base_deposited = seller.base_deposited - base_amount;
    new_seller.base_locked = seller.base_locked.saturating_sub(base_amount);
    new_seller.quote_deposited = seller_quote;
    let mut new_buyer = buyer;
    new_buyer.quote_deposited = buyer.quote_deposited - quote_amount;
    new_buyer.quote_locked = buyer.quote_locked.saturating_sub(quote_amount);
    new_buyer.base_deposited = buyer_base;
    if maker_is_buy {
        *maker_position = new_buyer;
        *taker_position = new_seller;
    } else {
        *maker_position = new_seller;
        *taker_position = new_buyer;
    }
    settlement.settled = true;
    settlement.settled_at = now;
    Ok(())
}

/// A settled trade moves exactly the execution amount of base from seller to
/// buyer, exactly the quote amount out of the buyer's quote, and exactly the
/// quote amount less the fee into the seller's quote.
pub proof fn lemma_settlement_conserves(
    st: TradeSettlement,
    market_key: Pubkey,
    fee_rate_bps: u16,
    maker: UserPosition,
    taker: UserPosition,
    now: i64,
)
    ensures
        settle_spec(st, market_key, fee_rate_bps, maker, taker, now) matches Ok((done, maker2, taker2))
            ==> {
            let buyer = if st.maker_is_buy {
                maker
            } else {
                taker
            };
            let seller = if st.maker_is_buy {
                taker
            } else {
                maker
            };
            let buyer2 = if st.maker_is_buy {
                maker2
            } else {
                taker2
            };
            let seller2 = if st.maker_is_buy {
                taker2
            } else {
                maker2
            };
            let quote = quote_amount_of(st.execution_amount, st.execution_price);
            let fee = fee_of(quote, fee_rate_bps);
            &&& done.settled
            &&& seller2.base_deposited == seller.base_deposited - st.execution_amount
            &&& buyer2.base_deposited == buyer.base_deposited + st.execution_amount
            &&& buyer2.quote_deposited == buyer.quote_deposited - quote
            &&& seller2.quote_deposited == seller.quote_deposited + (quote - fee)
            &&& 0 <= fee <= quote
        },
{
}

/// Settling the record that a successful settlement returned is refused as
/// already settled and changes no balance.
pub proof fn lemma_settle_twice_rejected(
    st: TradeSettlement,
    market_key: Pubkey,
    fee_rate_bps: u16,
    maker: UserPosition,
    taker: UserPosition,
    now: i64,
    later: i64,
)
    ensures
        settle_spec(st, market_key, fee_rate_bps, maker, taker, now) matches Ok((done, maker2, taker2))
            ==> settle_spec(done, market_key, fee_rate_bps, maker2, taker2, later) == Err::<
            (TradeSettlement, UserPosition, UserPosition),
            DuskError,
        >(DuskError::TradeAlreadySettled),
{
}

/// Settlement keeps every position well-formed: no locked balance ever
/// exceeds the deposited one.
pub proof fn lemma_settlement_keeps_positions_wf(
    st: TradeSettlement,
    market_key: Pubkey,
    fee_rate_bps: u16,
    maker: UserPosition,
    taker: UserPosition,
    now: i64,
)
    requires
        maker.wf(),
        taker.wf(),
    ensures
        settle_spec(st, market_key, fee_rate_bps, maker, taker, now) matches Ok((_, maker2, taker2))
            ==> maker2.wf() && taker2.wf(),
{
}

} // verus!
