//! The public record of one trading pair.
use vstd::prelude::*;

verus! {

/// A 256-bit account identity, held as its lower and upper 128-bit halves
/// (the little-endian halves of the key's 32 bytes).
#[derive(Clone, Copy, Debug, PartialEq, Eq, Structural)]
pub struct Pubkey {
    pub lo: u128,
    pub hi: u128,
}

impl Pubkey {
    pub open spec fn zero_spec() -> Pubkey {
        Pubkey { lo: 0, hi: 0 }
    }

    /// The all-zero identity, used for unset references.
    pub fn zero() -> (r: Pubkey)
        ensures
            r == Pubkey::zero_spec(),
    {
        Pubkey { lo: 0, hi: 0 }
    }
}

/// The `n` little-endian base-256 digits of `x` (higher digits dropped).
pub open spec fn le_bytes(x: nat, n: nat) -> Seq<u8>
    decreases n,
{
    if n == 0 {
        Seq::empty()
    } else {
        seq![(x % 256) as u8] + le_bytes(x / 256, (n - 1) as nat)
    }
}

/// Appends the `n` low-order little-endian bytes of `x` to `out`.
pub fn push_le_bytes(out: &mut Vec<u8>, x: u128, n: usize)
    ensures
        final(out)@ == old(out)@ + le_bytes(x as nat, n as nat),
{
    let mut v = x;
    let mut k: usize = 0;
    while k < n
        invariant
            k <= n,
            out@ + le_bytes(v as nat, (n - k) as nat) == old(out)@ + le_bytes(x as nat, n as nat),
        decreases n - k,
    {
        let ghost before = out@;
        let ghost rest = le_bytes(v as nat, (n - k) as nat);
        let byte = (v % 256) as u8;
        out.push(byte);
        v = v / 256;
        k = k + 1;
        assert(rest == seq![byte] + le_bytes(v as nat, (n - k) as nat));
        assert(out@ + le_bytes(v as nat, (n - k) as nat) =~= before + rest);
    }
}

impl Pubkey {
    pub open spec fn bytes_spec(self) -> Seq<u8> {
        le_bytes(self.lo as nat, 16) + le_bytes(self.hi as nat, 16)
    }

    /// The key's 32 bytes: the lower half, then the upper half, each
    /// little-endian.
    pub fn to_bytes(&self) -> (r: Vec<u8>)
        ensures
            r@ == self.bytes_spec(),
    {
        let mut out: Vec<u8> = Vec::new();
        push_le_bytes(&mut out, self.lo, 16);
        push_le_bytes(&mut out, self.hi, 16);
        assert(out@ =~= self.bytes_spec());
        out
    }
}

impl Default for Pubkey {
    fn default() -> (r: Pubkey)
        ensures
            r == Pubkey::zero_spec(),
    {
        Pubkey::zero()
    }
}

/// Basis points in one whole.
pub const BPS_DENOMINATOR: u64 = 10_000;

/// Fee on `amount` at `fee_rate_bps` basis points, rounded down.
pub open spec fn fee_of(amount: int, fee_rate_bps: u16) -> int {
    amount * fee_rate_bps as int / BPS_DENOMINATOR as int
}

/// Public counters and the single pending-match slot of one trading pair.
///
/// The market holds at most one pending match. A match captured while another
/// is pending replaces it, so callers trigger a new matching pass only once
/// the pending one has become a settlement record.
#[derive(Clone, Copy, Debug)]
pub struct Market {
    pub authority: Pubkey,
    pub base_mint: Pubkey,
    pub quote_mint: Pubkey,
    pub base_vault: Pubkey,
    pub quote_vault: Pubkey,
    pub market_id: u64,
    /// Trading fee in basis points.
    pub fee_rate_bps: u16,
    /// Orders accepted so far; the source of order ids.
    pub order_count: u64,
    pub orderbook_ref: Pubkey,
    pub base_locked: u64,
    pub quote_locked: u64,
    pub active_bids: u32,
    pub active_asks: u32,
    /// Settlement records created so far.
    pub settlement_count: u64,
    pub pending_maker: Pubkey,
    pub pending_taker: Pubkey,
    pub pending_maker_order_id: u64,
    pub pending_taker_order_id: u64,
    pub pending_execution_price: u64,
    pub pending_execution_amount: u64,
    pub pending_matched_at: i64,
    pub has_pending_match: bool,
    pub bump: u8,
}

impl Market {
    /// Fee owed on `amount`, rounded down.
    pub fn calculate_fee(&self, amount: u64) -> (r: u64)
        requires
            fee_of(amount as int, self.fee_rate_bps) <= u64::MAX,
        ensures
            r == fee_of(amount as int, self.fee_rate_bps),
    {
        proof {
            assert((amount as int) * (self.fee_rate_bps as int) <= (u64::MAX as int) * 65535)
                by (nonlinear_arith)
                requires
                    amount <= u64::MAX,
                    self.fee_rate_bps <= 65535,
            ;
        }
        (amount as u128 * self.fee_rate_bps as u128 / BPS_DENOMINATOR as u128) as u64
    }

    /// Advances the order counter and returns the new value as the next
    /// order id.
    pub fn next_order_id(&mut self) -> (r: u64)
        requires
            old(self).order_count < u64::MAX,
        ensures
            r == old(self).order_count + 1,
            *final(self) == (Market { order_count: r, ..*old(self) }),
    {
        self.order_count = self.order_count + 1;
        self.order_count
    }
}

/// The seed prefix of a market record: the ASCII bytes of `market`.
pub open spec fn market_prefix() -> Seq<u8> {
    seq![109u8, 97, 114, 107, 101, 116]
}

/// The seeds that locate the record of market `market_id`: the prefix, then
/// the id as eight little-endian bytes.
pub fn market_seeds(market_id: u64) -> (r: [Vec<u8>; 2])
    ensures
        r@[0]@ == market_prefix(),
        r@[1]@ == le_bytes(market_id as nat, 8),
{
    let prefix: Vec<u8> = vec![109u8, 97, 114, 107, 101, 116];
    let mut id: Vec<u8> = Vec::new();
    push_le_bytes(&mut id, market_id as u128, 8);
    assert(id@ =~= le_bytes(market_id as nat, 8));
    assert(prefix@ =~= market_prefix());
    [prefix, id]
}

} // verus!
