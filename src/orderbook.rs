//! The confidential order table: a fixed arena of order slots, admission
//! (insert / withdraw) and the price-time priority matching pass.
//!
//! Every operation scans the whole table, whatever it finds, so that the shape
//! of the computation never depends on the orders it holds.
use vstd::prelude::*;

verus! {

/// Number of slots in the order table.
pub const MAX_ORDERS: usize = 64;

/// Prices are integers scaled by this factor (one unit of quote currency).
pub const PRICE_SCALE: u64 = 1_000_000;

/// Smallest order size, in base-asset units.
pub const MIN_ORDER_AMOUNT: u64 = 1000;

/// One slot of the order table.
#[derive(Clone, Copy, Debug, PartialEq, Eq, Structural)]
pub struct Order {
    /// Limit price, scaled by `PRICE_SCALE`.
    pub price: u64,
    /// Remaining size in base-asset units.
    pub amount: u64,
    /// Lower half of the owner's 256-bit identity.
    pub owner_lo: u128,
    /// Upper half of the owner's 256-bit identity.
    pub owner_hi: u128,
    /// Caller-assigned identifier.
    pub order_id: u64,
    /// `true` for a buy (bid), `false` for a sell (ask).
    pub side: bool,
    /// Whether the slot holds a live order.
    pub is_active: bool,
    /// Submission time, used only to break price ties.
    pub timestamp: u64,
}

impl Order {
    pub open spec fn empty_spec() -> Order {
        Order {
            price: 0,
            amount: 0,
            owner_lo: 0,
            owner_hi: 0,
            order_id: 0,
            side: false,
            is_active: false,
            timestamp: 0,
        }
    }

    /// An empty, inactive slot.
    pub fn empty() -> (r: Order)
        ensures
            r == Order::empty_spec(),
    {
        Order {
            price: 0,
            amount: 0,
            owner_lo: 0,
            owner_hi: 0,
            order_id: 0,
            side: false,
            is_active: false,
            timestamp: 0,
        }
    }

    pub open spec fn is_bid(self) -> bool {
        self.is_active && self.side
    }

    pub open spec fn is_ask(self) -> bool {
        self.is_active && !self.side
    }

    pub open spec fn owned_by(self, owner_lo: u128, owner_hi: u128) -> bool {
        self.owner_lo == owner_lo && self.owner_hi == owner_hi
    }

    pub open spec fn same_owner(self, other: Order) -> bool {
        self.owned_by(other.owner_lo, other.owner_hi)
    }

    /// The order as written into a slot on admission.
    pub open spec fn activated(self) -> Order {
        Order { is_active: true, ..self }
    }
}

impl Default for Order {
    fn default() -> (r: Order)
        ensures
            r == Order::empty_spec(),
    {
        Order::empty()
    }
}

/// Number of active slots in `s`.
pub open spec fn count_active(s: Seq<Order>) -> nat
    decreases s.len(),
{
    if s.len() == 0 {
        0
    } else {
        count_active(s.drop_last()) + if s.last().is_active {
            1nat
        } else {
            0nat
        }
    }
}

pub proof fn lemma_count_active_bound(s: Seq<Order>)
    ensures
        count_active(s) <= s.len(),
    decreases s.len(),
{
    if s.len() > 0 {
        lemma_count_active_bound(s.drop_last());
    }
}

pub proof fn lemma_count_active_full(s: Seq<Order>)
    requires
        forall|i: int| 0 <= i < s.len() ==> #[trigger] s[i].is_active,
    ensures
        count_active(s) == s.len(),
    decreases s.len(),
{
    if s.len() > 0 {
        assert forall|i: int| 0 <= i < s.drop_last().len() implies #[trigger] s.drop_last()[i].is_active by {
            assert(s[i].is_active);
        }
        lemma_count_active_full(s.drop_last());
    }
}

/// Writing one slot changes the active count by the change in that slot alone.
pub proof fn lemma_count_active_update(s: Seq<Order>, i: int, o: Order)
    requires
        0 <= i < s.len(),
    ensures
        count_active(s.update(i, o)) + (if s[i].is_active { 1int } else { 0int }) == count_active(s)
            + (if o.is_active { 1int } else { 0int }),
    decreases s.len(),
{
    let t = s.update(i, o);
    if i == s.len() - 1 {
        assert(t.drop_last() =~= s.drop_last());
    } else {
        assert(t.drop_last() =~= s.drop_last().update(i, o));
        lemma_count_active_update(s.drop_last(), i, o);
    }
}

/// The fixed-size order table.
#[derive(Clone, Copy)]
pub struct OrderBook {
    /// The slots; an inactive slot is free.
    pub orders: [Order; MAX_ORDERS],
    /// Number of active slots.
    pub order_count: u8,
}

impl OrderBook {
    /// `order_count` is the number of active slots.
    pub open spec fn wf(self) -> bool {
        self.order_count as nat == count_active(self.orders@)
    }
}

impl Default for OrderBook {
    /// An empty table.
    fn default() -> (r: OrderBook)
        ensures
            r.wf(),
            r.order_count == 0,
            forall|i: int| 0 <= i < MAX_ORDERS ==> #[trigger] r.orders@[i] == Order::empty_spec(),
    {
        let r = OrderBook { orders: [Order::empty();MAX_ORDERS], order_count: 0 };
        proof {
            assert forall|i: int| 0 <= i < MAX_ORDERS implies #[trigger] r.orders@[i]
                == Order::empty_spec() by {}
            lemma_count_active_zero(r.orders@);
        }
        r
    }
}

pub proof fn lemma_count_active_zero(s: Seq<Order>)
    requires
        forall|i: int| 0 <= i < s.len() ==> !#[trigger] s[i].is_active,
    ensures
        count_active(s) == 0,
    decreases s.len(),
{
    if s.len() > 0 {
        assert forall|i: int| 0 <= i < s.drop_last().len() implies !#[trigger] s.drop_last()[i].is_active by {
            assert(!s[i].is_active);
        }
        lemma_count_active_zero(s.drop_last());
    }
}

/// `i` is the first free slot of `s`.
pub open spec fn is_first_free(s: Seq<Order>, i: int) -> bool {
    &&& 0 <= i < s.len()
    &&& !s[i].is_active
    &&& forall|j: int| 0 <= j < i ==> #[trigger] s[j].is_active
}

/// Writes `order` into the first free slot and marks it active. When every
/// slot is taken the table comes back unchanged.
pub fn add_order(order: Order, orderbook: &OrderBook) -> (r: OrderBook)
    requires
        orderbook.wf(),
    ensures
        r.wf(),
        (forall|i: int| 0 <= i < MAX_ORDERS ==> #[trigger] orderbook.orders@[i].is_active) ==> r
            == *orderbook,
        forall|i: int|
            is_first_free(orderbook.orders@, i) ==> {
                &&& r.orders@ == orderbook.orders@.update(i, order.activated())
                &&& r.order_count == orderbook.order_count + 1
            },
{
    let ghost s = orderbook.orders@;
    let mut ob = *orderbook;
    let mut inserted = false;
    let ghost mut slot: int = 0;
    let mut new_order = order;
    new_order.is_active = true;
    for i in 0..MAX_ORDERS
        invariant
            orderbook.wf(),
            s == orderbook.orders@,
            new_order == order.activated(),
            !inserted ==> ob == *orderbook,
            !inserted ==> forall|j: int| 0 <= j < i ==> #[trigger] s[j].is_active,
            inserted ==> is_first_free(s, slot) && ob.orders@ == s.update(slot, new_order)
                && ob.order_count == orderbook.order_count,
    {
        if !inserted {
            if !ob.orders[i].is_active {
                ob.orders[i] = new_order;
                inserted = true;
                proof {
                    slot = i as int;
                }
            }
        }
    }
    if inserted {
        proof {
            lemma_count_active_update(s, slot, new_order);
            lemma_count_active_bound(ob.orders@);
        }
        ob.order_count = ob.order_count + 1;
    }
    proof {
        if !inserted {
            lemma_count_active_full(s);
        }
        assert forall|i: int| is_first_free(s, i) implies ob.orders@ == s.update(i, order.activated())
            && ob.order_count == orderbook.order_count + 1 by {
            if !inserted {
                assert(s[i].is_active);
            } else if i < slot {
                assert(s[i].is_active);
            } else if slot < i {
                assert(s[slot].is_active);
            }
        }
    }
    ob
}

/// Slot `o` may be withdrawn by `owner` under `order_id`.
pub open spec fn is_removable(o: Order, order_id: u64, owner_lo: u128, owner_hi: u128) -> bool {
    o.is_active && o.order_id == order_id && o.owned_by(owner_lo, owner_hi)
}

/// `i` is the first slot of `s` that may be withdrawn.
pub open spec fn is_first_removable(
    s: Seq<Order>,
    i: int,
    order_id: u64,
    owner_lo: u128,
    owner_hi: u128,
) -> bool {
    &&& 0 <= i < s.len()
    &&& is_removable(s[i], order_id, owner_lo, owner_hi)
    &&& forall|j: int| 0 <= j < i ==> !is_removable(#[trigger] s[j], order_id, owner_lo, owner_hi)
}

/// Withdraws the order `order_id` if it is active and owned by the caller's
/// identity. Only the first such slot is cleared. Returns the new table and
/// whether a slot was cleared; otherwise the table is unchanged.
pub fn remove_order(order_id: u64, owner_lo: u128, owner_hi: u128, orderbook: &OrderBook) -> (r: (
    OrderBook,
    bool,
))
    requires
        orderbook.wf(),
    ensures
        r.0.wf(),
        r.1 <==> exists|i: int|
            0 <= i < MAX_ORDERS && is_removable(
                #[trigger] orderbook.orders@[i],
                order_id,
                owner_lo,
                owner_hi,
            ),
        !r.1 ==> r.0 == *orderbook,
        forall|i: int|
            is_first_removable(orderbook.orders@, i, order_id, owner_lo, owner_hi) ==> {
                &&& r.0.orders@ == orderbook.orders@.update(i, Order::empty_spec())
                &&& r.0.order_count == orderbook.order_count - 1
            },
{
    let ghost s = orderbook.orders@;
    let mut ob = *orderbook;
    let mut removed = false;
    let ghost mut slot: int = 0;
    for i in 0..MAX_ORDERS
        invariant
            orderbook.wf(),
            s == orderbook.orders@,
            !removed ==> ob == *orderbook,
            !removed ==> forall|j: int|
                0 <= j < i ==> !is_removable(#[trigger] s[j], order_id, owner_lo, owner_hi),
            removed ==> is_first_removable(s, slot, order_id, owner_lo, owner_hi) && ob.orders@
                == s.update(slot, Order::empty_spec()) && ob.order_count == orderbook.order_count,
    {
        if !removed {
            let o = ob.orders[i];
            if o.is_active && o.order_id == order_id && o.owner_lo == owner_lo && o.owner_hi
                == owner_hi {
                ob.orders[i] = Order::empty();
                removed = true;
                proof {
                    slot = i as int;
                }
            }
        }
    }
    if removed {
        proof {
            lemma_count_active_update(s, slot, Order::empty_spec());
        }
        ob.order_count = ob.order_count - 1;
    }
    proof {
        assert forall|i: int| is_first_removable(s, i, order_id, owner_lo, owner_hi) implies ob.orders@
            == s.update(i, Order::empty_spec()) && ob.order_count == orderbook.order_count - 1 by {
            if !removed {
                assert(!is_removable(s[i], order_id, owner_lo, owner_hi));
            } else if i < slot {
                assert(!is_removable(s[i], order_id, owner_lo, owner_hi));
            } else if slot < i {
                assert(!is_removable(s[slot], order_id, owner_lo, owner_hi));
            }
        }
        if removed {
            assert(is_removable(s[slot], order_id, owner_lo, owner_hi));
        }
    }
    (ob, removed)
}

/// Disclosure record of one matching pass: the only values that leave the
/// confidential computation.
#[derive(Clone, Copy, Debug, PartialEq, Eq, Structural)]
pub struct MatchResult {
    /// Whether a trade took place.
    pub matched: bool,
    /// Order id of the maker (always the ask).
    pub maker_order_id: u64,
    /// Order id of the taker (always the bid).
    pub taker_order_id: u64,
    /// Midpoint of the two limit prices, rounded down.
    pub execution_price: u64,
    /// Smaller of the two remaining sizes.
    pub execution_amount: u64,
    pub maker_lo: u128,
    pub maker_hi: u128,
    pub taker_lo: u128,
    pub taker_hi: u128,
    /// Whether the maker was buying; the maker is the ask, so always `false`.
    pub maker_is_buy: bool,
}

impl MatchResult {
    pub open spec fn zero_spec() -> MatchResult {
        MatchResult {
            matched: false,
            maker_order_id: 0,
            taker_order_id: 0,
            execution_price: 0,
            execution_amount: 0,
            maker_lo: 0,
            maker_hi: 0,
            taker_lo: 0,
            taker_hi: 0,
            maker_is_buy: false,
        }
    }

    /// The record of a pass that found no trade.
    pub fn zero() -> (r: MatchResult)
        ensures
            r == MatchResult::zero_spec(),
    {
        MatchResult {
            matched: false,
            maker_order_id: 0,
            taker_order_id: 0,
            execution_price: 0,
            execution_amount: 0,
            maker_lo: 0,
            maker_hi: 0,
            taker_lo: 0,
            taker_hi: 0,
            maker_is_buy: false,
        }
    }
}

impl Default for MatchResult {
    fn default() -> (r: MatchResult)
        ensures
            r == MatchResult::zero_spec(),
    {
        MatchResult::zero()
    }
}

/// The bid in slot `i` ranks at or above the bid in slot `j`: higher price,
/// then earlier timestamp, then lower slot.
pub open spec fn bid_ranks_over(s: Seq<Order>, i: int, j: int) -> bool {
    ||| s[i].price > s[j].price
    ||| s[i].price == s[j].price && s[i].timestamp < s[j].timestamp
    ||| s[i].price == s[j].price && s[i].timestamp == s[j].timestamp && i <= j
}

/// The ask in slot `i` ranks at or above the ask in slot `j`: lower price,
/// then earlier timestamp, then lower slot.
pub open spec fn ask_ranks_over(s: Seq<Order>, i: int, j: int) -> bool {
    ||| s[i].price < s[j].price
    ||| s[i].price == s[j].price && s[i].timestamp < s[j].timestamp
    ||| s[i].price == s[j].price && s[i].timestamp == s[j].timestamp && i <= j
}

/// Slot `i` holds the best bid of `s`.
pub open spec fn is_best_bid(s: Seq<Order>, i: int) -> bool {
    &&& 0 <= i < s.len()
    &&& s[i].is_bid()
    &&& forall|j: int| 0 <= j < s.len() && (#[trigger] s[j]).is_bid() ==> bid_ranks_over(s, i, j)
}

/// Slot `i` holds the best ask of `s`.
pub open spec fn is_best_ask(s: Seq<Order>, i: int) -> bool {
    &&& 0 <= i < s.len()
    &&& s[i].is_ask()
    &&& forall|j: int| 0 <= j < s.len() && (#[trigger] s[j]).is_ask() ==> ask_ranks_over(s, i, j)
}

pub open spec fn best_bid(s: Seq<Order>) -> Option<int> {
    if exists|i: int| is_best_bid(s, i) {
        Some(choose|i: int| is_best_bid(s, i))
    } else {
        None
    }
}

pub open spec fn best_ask(s: Seq<Order>) -> Option<int> {
    if exists|i: int| is_best_ask(s, i) {
        Some(choose|i: int| is_best_ask(s, i))
    } else {
        None
    }
}

pub proof fn lemma_best_bid_unique(s: Seq<Order>, i: int, j: int)
    requires
        is_best_bid(s, i),
        is_best_bid(s, j),
    ensures
        i == j,
{
    assert(bid_ranks_over(s, i, j));
    assert(bid_ranks_over(s, j, i));
}

pub proof fn lemma_best_ask_unique(s: Seq<Order>, i: int, j: int)
    requires
        is_best_ask(s, i),
        is_best_ask(s, j),
    ensures
        i == j,
{
    assert(ask_ranks_over(s, i, j));
    assert(ask_ranks_over(s, j, i));
}

/// Scans every slot for the best bid; `None` when no bid is active.
pub fn find_best_bid(orders: &[Order; MAX_ORDERS]) -> (r: Option<usize>)
    ensures
        r is None <==> forall|j: int| 0 <= j < MAX_ORDERS ==> !(#[trigger] orders@[j]).is_bid(),
        r matches Some(i) ==> is_best_bid(orders@, i as int) && best_bid(orders@) == Some(i as int),
        r is None ==> best_bid(orders@) is None,
{
    let ghost s = orders@;
    let mut best: Option<usize> = None;
    for k in 0..MAX_ORDERS
        invariant
            s == orders@,
            best is None ==> forall|j: int| 0 <= j < k ==> !(#[trigger] s[j]).is_bid(),
            best matches Some(b) ==> {
                &&& b < k
                &&& s[b as int].is_bid()
                &&& forall|j: int| 0 <= j < k && (#[trigger] s[j]).is_bid() ==> bid_ranks_over(s, b as int, j)
            },
    {
        let o = orders[k];
        if o.is_active && o.side {
            match best {
                None => {
                    best = Some(k);
                },
                Some(b) => {
                    let cur = orders[b];
                    if o.price > cur.price || (o.price == cur.price && o.timestamp < cur.timestamp) {
                        best = Some(k);
                    }
                },
            }
        }
    }
    proof {
        if let Some(b) = best {
            let c = choose|i: int| is_best_bid(s, i);
            assert(is_best_bid(s, b as int));
            lemma_best_bid_unique(s, b as int, c);
        } else {
            assert forall|i: int| !is_best_bid(s, i) by {
                if is_best_bid(s, i) {
                    assert(s[i].is_bid());
                }
            }
        }
    }
    best
}

/// Scans every slot for the best ask; `None` when no ask is active.
pub fn find_best_ask(orders: &[Order; MAX_ORDERS]) -> (r: Option<usize>)
    ensures
        r is None <==> forall|j: int| 0 <= j < MAX_ORDERS ==> !(#[trigger] orders@[j]).is_ask(),
        r matches Some(i) ==> is_best_ask(orders@, i as int) && best_ask(orders@) == Some(i as int),
        r is None ==> best_ask(orders@) is None,
{
    let ghost s = orders@;
    let mut best: Option<usize> = None;
    for k in 0..MAX_ORDERS
        invariant
            s == orders@,
            best is None ==> forall|j: int| 0 <= j < k ==> !(#[trigger] s[j]).is_ask(),
            best matches Some(b) ==> {
                &&& b < k
                &&& s[b as int].is_ask()
                &&& forall|j: int| 0 <= j < k && (#[trigger] s[j]).is_ask() ==> ask_ranks_over(s, b as int, j)
            },
    {
        let o = orders[k];
        if o.is_active && !o.side {
            match best {
                None => {
                    best = Some(k);
                },
                Some(b) => {
                    let cur = orders[b];
                    if o.price < cur.price || (o.price == cur.price && o.timestamp < cur.timestamp) {
                        best = Some(k);
                    }
                },
            }
        }
    }
    proof {
        if let Some(b) = best {
            let c = choose|i: int| is_best_ask(s, i);
            assert(is_best_ask(s, b as int));
            lemma_best_ask_unique(s, b as int, c);
        } else {
            assert forall|i: int| !is_best_ask(s, i) by {
                if is_best_ask(s, i) {
                    assert(s[i].is_ask());
                }
            }
        }
    }
    best
}

/// The best bid and best ask of `s`, when both exist and their prices cross.
pub open spec fn crossing_pair(s: Seq<Order>) -> Option<(int, int)> {
    match (best_bid(s), best_ask(s)) {
        (Some(b), Some(a)) => if s[b].price >= s[a].price {
            Some((b, a))
        } else {
            None
        },
        _ => None,
    }
}

/// The pair that trades in a pass over `s`: the crossing pair, unless both
/// sides belong to one owner.
pub open spec fn trading_pair(s: Seq<Order>) -> Option<(int, int)> {
    match crossing_pair(s) {
        Some((b, a)) => if s[b].same_owner(s[a]) {
            None
        } else {
            Some((b, a))
        },
        None => None,
    }
}

/// Midpoint of a crossing bid and ask price, rounded down.
pub open spec fn execution_price_of(bid: Order, ask: Order) -> u64 {
    ((bid.price + ask.price) / 2) as u64
}

/// Smaller of the two remaining sizes.
pub open spec fn execution_amount_of(bid: Order, ask: Order) -> u64 {
    if bid.amount < ask.amount {
        bid.amount
    } else {
        ask.amount
    }
}

/// A slot after trading `x` units: deactivated when fully filled, otherwise
/// reduced, keeping its price and timestamp.
pub open spec fn filled(o: Order, x: u64) -> Order {
    if o.amount <= x {
        Order { is_active: false, ..o }
    } else {
        Order { amount: (o.amount - x) as u64, ..o }
    }
}

/// The table after one matching pass over `s`.
pub open spec fn orders_after_match(s: Seq<Order>) -> Seq<Order> {
    match trading_pair(s) {
        Some((b, a)) => {
            let x = execution_amount_of(s[b], s[a]);
            s.update(b, filled(s[b], x)).update(a, filled(s[a], x))
        },
        None => s,
    }
}

/// What one matching pass over `s` discloses.
pub open spec fn match_result_of(s: Seq<Order>) -> MatchResult {
    match trading_pair(s) {
        Some((b, a)) => MatchResult {
            matched: true,
            maker_order_id: s[a].order_id,
            taker_order_id: s[b].order_id,
            execution_price: execution_price_of(s[b], s[a]),
            execution_amount: execution_amount_of(s[b], s[a]),
            maker_lo: s[a].owner_lo,
            maker_hi: s[a].owner_hi,
            taker_lo: s[b].owner_lo,
            taker_hi: s[b].owner_hi,
            maker_is_buy: false,
        },
        None => MatchResult::zero_spec(),
    }
}

/// One matching pass: finds the best bid and best ask, and when they cross
/// and belong to different owners trades the smaller size at the midpoint
/// price. Otherwise the table is returned unchanged with a zero record.
pub fn match_book(orderbook: &OrderBook) -> (r: (OrderBook, MatchResult))
    requires
        orderbook.wf(),
    ensures
        r.0.wf(),
        r.0.orders@ == orders_after_match(orderbook.orders@),
        r.1 == match_result_of(orderbook.orders@),
        !r.1.matched ==> r.0 == *orderbook && r.1 == MatchResult::zero_spec(),
{
    let ghost s = orderbook.orders@;
    let mut ob = *orderbook;
    let mut result = MatchResult::zero();
    let bid_idx = find_best_bid(&orderbook.orders);
    let ask_idx = find_best_ask(&orderbook.orders);
    if let (Some(b), Some(a)) = (bid_idx, ask_idx) {
        let bid = orderbook.orders[b];
        let ask = orderbook.orders[a];
        if bid.price >= ask.price {
            let is_self_trade = bid.owner_lo == ask.owner_lo && bid.owner_hi == ask.owner_hi;
            if !is_self_trade {
                assert(b != a);
                let execution_price = ask.price + (bid.price - ask.price) / 2;
                let execution_amount = if bid.amount < ask.amount {
                    bid.amount
                } else {
                    ask.amount
                };
                let mut updated_bid = bid;
                let mut updated_ask = ask;
                if bid.amount <= execution_amount {
                    updated_bid.is_active = false;
                } else {
                    updated_bid.amount = bid.amount - execution_amount;
                }
                if ask.amount <= execution_amount {
                    updated_ask.is_active = false;
                } else {
                    updated_ask.amount = ask.amount - execution_amount;
                }
                ob.orders[b] = updated_bid;
                ob.orders[a] = updated_ask;
                proof {
                    let s1 = s.update(b as int, updated_bid);
                    lemma_count_active_update(s, b as int, updated_bid);
                    lemma_count_active_update(s1, a as int, updated_ask);
                    lemma_count_active_bound(ob.orders@);
                }
                // the smaller side is always fully filled
                if !updated_bid.is_active {
                    ob.order_count = ob.order_count - 1;
                }
                if !updated_ask.is_active {
                    ob.order_count = ob.order_count - 1;
                }
                result = MatchResult {
                    matched: true,
                    maker_order_id: ask.order_id,
                    taker_order_id: bid.order_id,
                    execution_price,
                    execution_amount,
                    maker_lo: ask.owner_lo,
                    maker_hi: ask.owner_hi,
                    taker_lo: bid.owner_lo,
                    taker_hi: bid.owner_hi,
                    maker_is_buy: false,
                };
            }
        }
    }
    (ob, result)
}

/// A trade always takes the best bid (highest price, earliest at equal price)
/// and the best ask (lowest price, earliest at equal price); the bid is the
/// taker and the ask the maker.
pub proof fn lemma_match_takes_best(s: Seq<Order>)
    ensures
        match_result_of(s).matched ==> {
            let (b, a) = trading_pair(s)->0;
            let r = match_result_of(s);
            &&& 0 <= b < s.len() && 0 <= a < s.len()
            &&& s[b].is_bid() && s[a].is_ask()
            &&& r.taker_order_id == s[b].order_id && r.maker_order_id == s[a].order_id
            &&& forall|j: int|
                0 <= j < s.len() && (#[trigger] s[j]).is_bid() ==> s[j].price <= s[b].price && (
                s[j].price == s[b].price ==> s[b].timestamp <= s[j].timestamp)
            &&& forall|j: int|
                0 <= j < s.len() && (#[trigger] s[j]).is_ask() ==> s[j].price >= s[a].price && (
                s[j].price == s[a].price ==> s[a].timestamp <= s[j].timestamp)
        },
{
    if match_result_of(s).matched {
        let b = best_bid(s)->0;
        let a = best_ask(s)->0;
        assert(is_best_bid(s, b));
        assert(is_best_ask(s, a));
        assert forall|j: int| 0 <= j < s.len() && (#[trigger] s[j]).is_bid() implies s[j].price
            <= s[b].price && (s[j].price == s[b].price ==> s[b].timestamp <= s[j].timestamp) by {
            assert(bid_ranks_over(s, b, j));
        }
        assert forall|j: int| 0 <= j < s.len() && (#[trigger] s[j]).is_ask() implies s[j].price
            >= s[a].price && (s[j].price == s[a].price ==> s[a].timestamp <= s[j].timestamp) by {
            assert(ask_ranks_over(s, a, j));
        }
    }
}

/// In a trade each side either keeps its order with the size reduced by
/// exactly the execution amount, or is deactivated because the execution
/// amount was its whole size; at least one side is deactivated, and no other
/// slot changes.
pub proof fn lemma_match_conserves(s: Seq<Order>)
    ensures
        match_result_of(s).matched ==> {
            let (b, a) = trading_pair(s)->0;
            let t = orders_after_match(s);
            let x = match_result_of(s).execution_amount;
            &&& b != a && t.len() == s.len()
            &&& x == s[b].amount || x == s[a].amount
            &&& x <= s[b].amount && x <= s[a].amount
            &&& (t[b].is_active && s[b].amount == t[b].amount + x) || (!t[b].is_active && s[b].amount
                == x)
            &&& (t[a].is_active && s[a].amount == t[a].amount + x) || (!t[a].is_active && s[a].amount
                == x)
            &&& !t[b].is_active || !t[a].is_active
            &&& forall|j: int| 0 <= j < s.len() && j != b && j != a ==> #[trigger] t[j] == s[j]
        },
{
    if match_result_of(s).matched {
        let b = best_bid(s)->0;
        let a = best_ask(s)->0;
        assert(is_best_bid(s, b));
        assert(is_best_ask(s, a));
    }
}

/// A pass that does not trade discloses nothing: every field of its record
/// is zero, and the table is unchanged.
pub proof fn lemma_no_trade_discloses_nothing(s: Seq<Order>)
    ensures
        !match_result_of(s).matched ==> match_result_of(s) == MatchResult::zero_spec()
            && orders_after_match(s) == s,
{
}

/// When the best bid and the best ask share an owner, the pass leaves the
/// table exactly as it was and reports no trade.
pub proof fn lemma_self_trade_leaves_table(s: Seq<Order>, b: int, a: int)
    requires
        is_best_bid(s, b),
        is_best_ask(s, a),
        s[b].same_owner(s[a]),
    ensures
        orders_after_match(s) == s,
        match_result_of(s) == MatchResult::zero_spec(),
{
    lemma_best_bid_unique(s, b, best_bid(s)->0);
    lemma_best_ask_unique(s, a, best_ask(s)->0);
}

/// The active orders of `s` that belong to the given owner, in slot order.
pub open spec fn orders_of(s: Seq<Order>, owner_lo: u128, owner_hi: u128) -> Seq<Order>
    decreases s.len(),
{
    if s.len() == 0 {
        Seq::empty()
    } else {
        let p = orders_of(s.drop_last(), owner_lo, owner_hi);
        if s.last().is_active && s.last().owned_by(owner_lo, owner_hi) {
            p.push(s.last())
        } else {
            p
        }
    }
}

/// The owner's active orders, packed at the front of a full-size table in
/// slot order; the remaining slots are empty.
pub fn get_user_orders(owner_lo: u128, owner_hi: u128, orderbook: &OrderBook) -> (r: [Order; MAX_ORDERS])
    ensures
        ({
            let mine = orders_of(orderbook.orders@, owner_lo, owner_hi);
            &&& mine.len() <= MAX_ORDERS
            &&& forall|i: int| 0 <= i < mine.len() ==> #[trigger] r@[i] == mine[i]
            &&& forall|i: int| mine.len() <= i < MAX_ORDERS ==> #[trigger] r@[i] == Order::empty_spec()
        }),
{
    let ghost s = orderbook.orders@;
    let mut user_orders = [Order::empty();MAX_ORDERS];
    let mut user_order_idx: usize = 0;
    for k in 0..MAX_ORDERS
        invariant
            s == orderbook.orders@,
            user_order_idx <= k,
            user_order_idx == orders_of(s.take(k as int), owner_lo, owner_hi).len(),
            forall|i: int|
                0 <= i < user_order_idx ==> #[trigger] user_orders@[i] == orders_of(
                    s.take(k as int),
                    owner_lo,
                    owner_hi,
                )[i],
            forall|i: int|
                user_order_idx <= i < MAX_ORDERS ==> #[trigger] user_orders@[i]
                    == Order::empty_spec(),
    {
        let ghost before = orders_of(s.take(k as int), owner_lo, owner_hi);
        assert(s.take(k + 1).drop_last() =~= s.take(k as int));
        let order = orderbook.orders[k];
        if order.is_active && order.owner_lo == owner_lo && order.owner_hi == owner_hi {
            user_orders[user_order_idx] = order;
            user_order_idx = user_order_idx + 1;
        }
    }
    assert(s.take(MAX_ORDERS as int) =~= s);
    user_orders
}

} // verus!
