use dusk_exchange::errors::DuskError;
use dusk_exchange::instructions::{
    cancel_order, create_settlement, deposit, initialize_market, match_orders, place_order,
    settle_trade, withdraw,
};
use dusk_exchange::orderbook::{match_book, add_order, Order, OrderBook};
use dusk_exchange::state::market::{market_seeds, Market, Pubkey};
use dusk_exchange::state::settlement::{settlement_seeds, TradeSettlement};
use dusk_exchange::state::user_position::{user_position_seeds, UserPosition};

fn key(n: u128) -> Pubkey {
    Pubkey { lo: n, hi: n + 1 }
}

fn market(fee_rate_bps: u16) -> Market {
    initialize_market::handler(key(1), key(2), key(3), key(4), key(5), 7, fee_rate_bps, 254)
}

fn position(owner: Pubkey, base: u64, quote: u64) -> UserPosition {
    UserPosition {
        owner,
        market: key(100),
        base_deposited: base,
        quote_deposited: quote,
        base_locked: 0,
        quote_locked: 0,
        active_order_count: 0,
        bump: 1,
    }
}

fn trade(amount: u64, price: u64) -> TradeSettlement {
    TradeSettlement {
        market: key(100),
        maker: key(10),
        taker: key(20),
        maker_order_id: 2,
        taker_order_id: 1,
        execution_price: price,
        execution_amount: amount,
        maker_is_buy: false,
        settled: false,
        matched_at: 5,
        settled_at: 0,
        bump: 3,
    }
}

#[test]
fn fee_is_rounded_down() {
    let m = market(30);
    assert_eq!(m.calculate_fee(1_000_000), 3_000);
    assert_eq!(m.calculate_fee(333), 0);
    assert_eq!(m.calculate_fee(10_000), 30);
}

#[test]
fn quote_amount_scales_price() {
    let t = trade(3, 99_500_000);
    assert_eq!(t.calculate_quote_amount(), 298);
    let t = trade(2_000_000, 1_500_000);
    assert_eq!(t.calculate_quote_amount(), 3_000_000);
}

#[test]
fn next_order_id_counts_up() {
    let mut m = market(0);
    assert_eq!(m.next_order_id(), 1);
    assert_eq!(m.next_order_id(), 2);
    assert_eq!(m.order_count, 2);
}

#[test]
fn available_is_deposited_less_locked() {
    let mut p = position(key(10), 100, 50);
    p.base_locked = 30;
    p.quote_locked = 70;
    assert_eq!(p.base_available(), 70);
    assert_eq!(p.quote_available(), 0);
}

#[test]
fn lock_and_unlock_for_order() {
    let mut p = position(key(10), 100, 50);
    assert_eq!(p.lock_for_order(40, true), Ok(()));
    assert_eq!(p.quote_locked, 40);
    assert_eq!(p.active_order_count, 1);
    assert_eq!(p.lock_for_order(11, true), Err(DuskError::InsufficientBalance));
    assert_eq!(p.quote_locked, 40);
    assert_eq!(p.lock_for_order(100, false), Ok(()));
    assert_eq!(p.base_locked, 100);
    assert_eq!(p.active_order_count, 2);
    p.unlock_for_cancel(150, false);
    assert_eq!(p.base_locked, 0);
    assert_eq!(p.active_order_count, 1);
    p.unlock_for_cancel(10, true);
    p.unlock_for_cancel(10, true);
    assert_eq!(p.quote_locked, 20);
    assert_eq!(p.active_order_count, 0);
}

#[test]
fn lock_refused_when_order_counter_is_full() {
    let mut p = position(key(10), 100, 50);
    p.active_order_count = u8::MAX;
    assert_eq!(p.lock_for_order(1, false), Err(DuskError::TooManyOrders));
    assert_eq!(p.base_locked, 0);
}

#[test]
fn lock_refused_when_locked_would_overflow() {
    let mut p = position(key(10), 0, 0);
    p.base_locked = u64::MAX;
    assert_eq!(p.lock_for_order(0, false), Ok(()));
    let mut p = position(key(10), 0, 0);
    p.quote_locked = 10;
    assert_eq!(p.lock_for_order(1, true), Err(DuskError::InsufficientBalance));
}

#[test]
fn place_order_validates_then_locks() {
    let mut p = position(key(10), 100, 50);
    let good = vec![0u8; 32];
    let short = vec![0u8; 31];
    assert_eq!(
        place_order::handler(&mut p, true, &short, &good, 10),
        Err(DuskError::InvalidEncryptedData)
    );
    assert_eq!(
        place_order::handler(&mut p, true, &good, &good, 0),
        Err(DuskError::AmountTooSmall)
    );
    assert_eq!(place_order::handler(&mut p, true, &good, &good, 10), Ok(()));
    assert_eq!(p.quote_locked, 10);
    assert_eq!(p.active_order_count, 1);
}

#[test]
fn place_order_callback_counts_or_releases() {
    let mut m = market(0);
    let mut p = position(key(10), 100, 50);
    p.lock_for_order(10, true).unwrap();
    place_order::callback_handler(&mut m, &mut p, true, 10, true);
    assert_eq!(m.order_count, 1);
    assert_eq!(m.active_bids, 1);
    assert_eq!(p.quote_locked, 10);

    p.lock_for_order(5, false).unwrap();
    place_order::callback_handler(&mut m, &mut p, false, 5, false);
    assert_eq!(m.order_count, 1);
    assert_eq!(m.active_asks, 0);
    assert_eq!(p.base_locked, 0);
    assert_eq!(p.active_order_count, 1);
}

#[test]
fn cancel_needs_an_open_order() {
    let mut p = position(key(10), 100, 50);
    assert_eq!(cancel_order::handler(&p), Err(DuskError::OrderNotFound));
    p.lock_for_order(20, false).unwrap();
    assert_eq!(cancel_order::handler(&p), Ok(()));
    let mut m = market(0);
    m.active_asks = 1;
    cancel_order::callback_handler(&mut m, &mut p, false, 20, false);
    assert_eq!(p.base_locked, 20);
    assert_eq!(m.active_asks, 1);
    cancel_order::callback_handler(&mut m, &mut p, true, 20, false);
    assert_eq!(p.base_locked, 0);
    assert_eq!(p.active_order_count, 0);
    assert_eq!(m.active_asks, 0);
}

#[test]
fn deposit_and_withdraw() {
    let m = market(0);
    let mut p = UserPosition {
        owner: Pubkey::zero(),
        market: Pubkey::zero(),
        base_deposited: 0,
        quote_deposited: 0,
        base_locked: 0,
        quote_locked: 0,
        active_order_count: 0,
        bump: 0,
    };
    assert_eq!(
        deposit::handler(&m, key(100), &mut p, key(10), key(4), 9, 0, true),
        Err(DuskError::AmountTooSmall)
    );
    assert_eq!(
        deposit::handler(&m, key(100), &mut p, key(10), key(5), 9, 10, true),
        Err(DuskError::InvalidMarketConfig)
    );
    assert_eq!(p.owner, Pubkey::zero());
    assert_eq!(deposit::handler(&m, key(100), &mut p, key(10), key(4), 9, 10, true), Ok(()));
    assert_eq!(p.owner, key(10));
    assert_eq!(p.market, key(100));
    assert_eq!(p.bump, 9);
    assert_eq!(p.base_deposited, 10);
    assert_eq!(deposit::handler(&m, key(100), &mut p, key(11), key(5), 2, 7, false), Ok(()));
    assert_eq!(p.owner, key(10));
    assert_eq!(p.quote_deposited, 7);
    p.quote_deposited = u64::MAX;
    assert_eq!(
        deposit::handler(&m, key(100), &mut p, key(10), key(5), 9, 1, false),
        Err(DuskError::MathOverflow)
    );
    p.quote_deposited = 7;

    p.base_locked = 4;
    assert_eq!(withdraw::handler(&m, &mut p, key(4), 7, true), Err(DuskError::InsufficientBalance));
    assert_eq!(withdraw::handler(&m, &mut p, key(5), 6, true), Err(DuskError::InvalidMarketConfig));
    assert_eq!(withdraw::handler(&m, &mut p, key(4), 0, true), Err(DuskError::AmountTooSmall));
    assert_eq!(withdraw::handler(&m, &mut p, key(4), 6, true), Ok(()));
    assert_eq!(p.base_deposited, 4);
    assert_eq!(withdraw::handler(&m, &mut p, key(5), 7, false), Ok(()));
    assert_eq!(p.quote_deposited, 0);
}

#[test]
fn match_trigger_needs_both_sides_and_no_pending_match() {
    let mut m = market(0);
    assert_eq!(match_orders::handler(&m), Err(DuskError::NoMatchingOrders));
    m.active_bids = 1;
    assert_eq!(match_orders::handler(&m), Err(DuskError::NoMatchingOrders));
    m.active_asks = 2;
    assert_eq!(match_orders::handler(&m), Ok(()));
    m.has_pending_match = true;
    assert_eq!(match_orders::handler(&m), Err(DuskError::ComputationNotReady));
}

#[test]
fn unmatched_result_is_not_captured() {
    let mut m = market(0);
    let r = dusk_exchange::orderbook::MatchResult::zero();
    assert_eq!(match_orders::callback_handler(&mut m, &r, 77), Err(DuskError::NoMatchingOrders));
    assert!(!m.has_pending_match);
}

#[test]
fn create_settlement_needs_a_pending_match() {
    let mut m = market(0);
    assert_eq!(
        create_settlement::handler(&mut m, key(100), 1).err(),
        Some(DuskError::NoMatchingOrders)
    );
    assert_eq!(m.settlement_count, 0);
}

#[test]
fn match_to_settlement_pipeline() {
    let bid = Order {
        price: 100_000_000,
        amount: 5,
        owner_lo: 20,
        owner_hi: 21,
        order_id: 1,
        side: true,
        is_active: true,
        timestamp: 1,
    };
    let ask = Order { price: 99_000_000, amount: 3, owner_lo: 10, owner_hi: 11, order_id: 2, side: false, ..bid };
    let ob = add_order(ask, &add_order(bid, &OrderBook::default()));
    let (_, r) = match_book(&ob);
    assert!(r.matched);

    let mut m = market(100);
    m.active_bids = 1;
    m.active_asks = 1;
    assert_eq!(match_orders::callback_handler(&mut m, &r, 1234), Ok(()));
    assert!(m.has_pending_match);
    assert_eq!(m.active_bids, 0);
    assert_eq!(m.active_asks, 0);
    assert_eq!(m.pending_maker, key(10));
    assert_eq!(m.pending_taker, key(20));
    assert_eq!(m.pending_execution_price, 99_500_000);
    assert_eq!(m.pending_execution_amount, 3);
    assert_eq!(m.pending_matched_at, 1234);

    let mut st = create_settlement::handler(&mut m, key(100), 6).unwrap();
    assert_eq!(m.settlement_count, 1);
    assert!(!m.has_pending_match);
    assert_eq!(m.pending_maker, Pubkey::zero());
    assert_eq!(m.pending_execution_amount, 0);
    assert_eq!(st.maker, key(10));
    assert_eq!(st.taker, key(20));
    assert_eq!(st.maker_order_id, 2);
    assert_eq!(st.taker_order_id, 1);
    assert_eq!(st.execution_amount, 3);
    assert_eq!(st.matched_at, 1234);
    assert!(!st.settled && !st.maker_is_buy);

    let mut maker = position(key(10), 10, 0);
    let mut taker = position(key(20), 0, 1_000);
    assert_eq!(settle_trade::handler(&m, key(100), &mut st, &mut maker, &mut taker, 99), Ok(()));
    // quote = 3 * 99.5 = 298, fee at 1% = 2
    assert_eq!(maker.base_deposited, 7);
    assert_eq!(maker.quote_deposited, 296);
    assert_eq!(taker.base_deposited, 3);
    assert_eq!(taker.quote_deposited, 702);
    assert!(st.settled);
    assert_eq!(st.settled_at, 99);
}

#[test]
fn settlement_moves_exact_amounts_and_releases_locks() {
    let m = market(30);
    let mut st = trade(2_000_000, 1_500_000);
    let mut maker = position(key(10), 5_000_000, 100);
    maker.base_locked = 1_000_000;
    let mut taker = position(key(20), 0, 10_000_000);
    taker.quote_locked = 4_000_000;
    assert_eq!(settle_trade::handler(&m, key(100), &mut st, &mut maker, &mut taker, 1), Ok(()));
    assert_eq!(maker.base_deposited, 3_000_000);
    assert_eq!(maker.base_locked, 0);
    assert_eq!(maker.quote_deposited, 100 + 3_000_000 - 9_000);
    assert_eq!(taker.base_deposited, 2_000_000);
    assert_eq!(taker.quote_deposited, 7_000_000);
    assert_eq!(taker.quote_locked, 1_000_000);
}

#[test]
fn maker_buying_swaps_roles() {
    let m = market(0);
    let mut st = trade(4, 2_000_000);
    st.maker_is_buy = true;
    let mut maker = position(key(10), 0, 100);
    let mut taker = position(key(20), 4, 0);
    assert_eq!(settle_trade::handler(&m, key(100), &mut st, &mut maker, &mut taker, 1), Ok(()));
    assert_eq!(maker.base_deposited, 4);
    assert_eq!(maker.quote_deposited, 92);
    assert_eq!(taker.base_deposited, 0);
    assert_eq!(taker.quote_deposited, 8);
}

#[test]
fn second_settlement_is_rejected() {
    let m = market(10);
    let mut st = trade(3, 99_500_000);
    let mut maker = position(key(10), 10, 0);
    let mut taker = position(key(20), 0, 1_000);
    assert_eq!(settle_trade::handler(&m, key(100), &mut st, &mut maker, &mut taker, 1), Ok(()));
    let (mk, tk) = (maker, taker);
    assert_eq!(
        settle_trade::handler(&m, key(100), &mut st, &mut maker, &mut taker, 2),
        Err(DuskError::TradeAlreadySettled)
    );
    assert_eq!(maker.base_deposited, mk.base_deposited);
    assert_eq!(maker.quote_deposited, mk.quote_deposited);
    assert_eq!(taker.base_deposited, tk.base_deposited);
    assert_eq!(taker.quote_deposited, tk.quote_deposited);
    assert_eq!(st.settled_at, 1);
}

#[test]
fn settlement_refusals_change_nothing() {
    let m = market(0);
    let mut maker = position(key(10), 10, 0);
    let mut taker = position(key(20), 0, 1_000);

    let mut st = trade(3, 1_000_000);
    assert_eq!(
        settle_trade::handler(&m, key(99), &mut st, &mut maker, &mut taker, 1),
        Err(DuskError::InvalidMarketConfig)
    );

    let mut st = trade(11, 1_000_000);
    assert_eq!(
        settle_trade::handler(&m, key(100), &mut st, &mut maker, &mut taker, 1),
        Err(DuskError::InsufficientBalance)
    );
    assert!(!st.settled);

    let mut locked_seller = position(key(10), 10, 0);
    locked_seller.base_locked = 8;
    let mut st = trade(3, 1_000_000);
    assert_eq!(
        settle_trade::handler(&m, key(100), &mut st, &mut locked_seller, &mut taker, 1),
        Err(DuskError::InsufficientBalance)
    );

    let mut st = trade(3, 1_000_000_000);
    assert_eq!(
        settle_trade::handler(&m, key(100), &mut st, &mut maker, &mut taker, 1),
        Err(DuskError::InsufficientBalance)
    );

    let mut st = trade(u64::MAX, u64::MAX);
    assert_eq!(
        settle_trade::handler(&m, key(100), &mut st, &mut maker, &mut taker, 1),
        Err(DuskError::MathOverflow)
    );

    let high_fee = market(20_000);
    let mut st = trade(3, 1_000_000);
    assert_eq!(
        settle_trade::handler(&high_fee, key(100), &mut st, &mut maker, &mut taker, 1),
        Err(DuskError::MathOverflow)
    );

    let mut rich_buyer = position(key(20), u64::MAX, 1_000);
    let mut st = trade(3, 1_000_000);
    assert_eq!(
        settle_trade::handler(&m, key(100), &mut st, &mut maker, &mut rich_buyer, 1),
        Err(DuskError::MathOverflow)
    );
    assert_eq!(maker.base_deposited, 10);
    assert_eq!(rich_buyer.quote_deposited, 1_000);
    assert!(!st.settled);
}

#[test]
fn error_messages() {
    assert_eq!(DuskError::TradeAlreadySettled.message(), "Trade already settled");
    assert_eq!(DuskError::SelfTrade.message(), "Self-trade prevention");
}

#[test]
fn seeds_hold_prefix_and_little_endian_ids() {
    let s = market_seeds(0x0102);
    assert_eq!(s[0], b"market".to_vec());
    assert_eq!(s[1], vec![2, 1, 0, 0, 0, 0, 0, 0]);

    let k = Pubkey { lo: 1, hi: 0x0300 };
    let bytes = k.to_bytes();
    assert_eq!(bytes.len(), 32);
    assert_eq!(bytes[0], 1);
    assert_eq!(bytes[16], 0);
    assert_eq!(bytes[17], 3);

    let s = settlement_seeds(&k, 5, 6);
    assert_eq!(s[0], b"settlement".to_vec());
    assert_eq!(s[1], bytes);
    assert_eq!(s[2], 5u64.to_le_bytes().to_vec());
    assert_eq!(s[3], 6u64.to_le_bytes().to_vec());

    let owner = Pubkey { lo: u128::MAX, hi: 7 };
    let s = user_position_seeds(&k, &owner);
    assert_eq!(s[0], b"user_position".to_vec());
    assert_eq!(s[1], bytes);
    let mut expected = u128::MAX.to_le_bytes().to_vec();
    expected.extend_from_slice(&7u128.to_le_bytes());
    assert_eq!(s[2], expected);
}
