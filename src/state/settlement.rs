//! The durable record of one completed match.
use vstd::prelude::*;
use crate::orderbook::PRICE_SCALE;
use crate::state::market::{le_bytes, push_le_bytes, Pubkey};

verus! {

/// Quote owed for `amount` base units at the scaled `price`, rounded down.
pub open spec fn quote_amount_of(amount: u64, price: u64) -> int {
    amount as int * price as int / PRICE_SCALE as int
}

/// One completed match, created unsettled and settled exactly once.
#[derive(Clone, Copy, Debug)]
pub struct TradeSettlement {
    pub market: Pubkey,
    /// The resting side (the ask).
    pub maker: Pubkey,
    /// The crossing side (the bid).
    pub taker: Pubkey,
    pub maker_order_id: u64,
    pub taker_order_id: u64,
    /// Scaled by `PRICE_SCALE`.
    pub execution_price: u64,
    /// In base-asset units.
    pub execution_amount: u64,
    pub maker_is_buy: bool,
    pub settled: bool,
    pub matched_at: i64,
    /// Zero until settled.
    pub settled_at: i64,
    pub bump: u8,
}

impl TradeSettlement {
    pub open spec fn quote_amount_spec(self) -> int {
        quote_amount_of(self.execution_amount, self.execution_price)
    }

    /// Quote owed for the executed base amount at the execution price.
    pub fn calculate_quote_amount(&self) -> (r: u64)
        requires
            self.quote_amount_spec() <= u64::MAX,
        ensures
            r == self.quote_amount_spec(),
    {
        proof {
            lemma_u64_product_fits(self.execution_amount, self.execution_price);
        }
        ((self.execution_amount as u128 * self.execution_price as u128) / PRICE_SCALE as u128) as u64
    }
}

/// The product of two `u64` values fits in a `u128`.
pub proof fn lemma_u64_product_fits(a: u64, b: u64)
    ensures
        (a as int) * (b as int) <= u128::MAX,
{
    assert((a as int) * (b as int) <= (u64::MAX as int) * (u64::MAX as int)) by (nonlinear_arith)
        requires
            a <= u64::MAX,
            b <= u64::MAX,
    ;
}

/// The seed prefix of a settlement record: the ASCII bytes of `settlement`.
pub open spec fn settlement_prefix() -> Seq<u8> {
    seq![115u8, 101, 116, 116, 108, 101, 109, 101, 110, 116]
}

/// The seeds that locate the settlement of two orders in `market`: the
/// prefix, the market's key bytes, then each order id as eight little-endian
/// bytes.
pub fn settlement_seeds(market: &Pubkey, maker_order_id: u64, taker_order_id: u64) -> (r: [Vec<
    u8,
>; 4])
    ensures
        r@[0]@ == settlement_prefix(),
        r@[1]@ == market.bytes_spec(),
        r@[2]@ == le_bytes(maker_order_id as nat, 8),
        r@[3]@ == le_bytes(taker_order_id as nat, 8),
{
    let prefix: Vec<u8> = vec![115u8, 101, 116, 116, 108, 101, 109, 101, 110, 116];
    let key = market.to_bytes();
    let mut maker: Vec<u8> = Vec::new();
    push_le_bytes(&mut maker, maker_order_id as u128, 8);
    let mut taker: Vec<u8> = Vec::new();
    push_le_bytes(&mut taker, taker_order_id as u128, 8);
    assert(prefix@ =~= settlement_prefix());
    assert(maker@ =~= le_bytes(maker_order_id as nat, 8));
    assert(taker@ =~= le_bytes(taker_order_id as nat, 8));
    [prefix, key, maker, taker]
}

} // verus!
