//! Admission of a new order: reserving the owner's balance before the order
//! enters the table, and reconciling the counters once it has.
use vstd::prelude::*;
use crate::errors::DuskError;
use crate::state::market::Market;
use crate::state::user_position::{saturating_diff, UserPosition};

verus! {

/// Length of one encrypted scalar argument.
pub const ENCRYPTED_VALUE_LEN: usize = 32;

/// Validates a new order's encrypted arguments and reserves `lock_amount`
/// (quote for a buy, base for a sell) on the owner's position.
///
/// Refused, with nothing changed, when an encrypted value is not one scalar
/// long, when `lock_amount` is zero, or when the reservation is refused.
pub fn handler(
    user_position: &mut UserPosition,
    is_buy: bool,
    encrypted_price: &Vec<u8>,
    encrypted_amount: &Vec<u8>,
    lock_amount: u64,
) -> (r: Result<(), DuskError>)
    ensures
        encrypted_price@.len() != ENCRYPTED_VALUE_LEN || encrypted_amount@.len()
            != ENCRYPTED_VALUE_LEN ==> r == Err::<(), DuskError>(DuskError::InvalidEncryptedData)
            && *final(user_position) == *old(user_position),
        encrypted_price@.len() == ENCRYPTED_VALUE_LEN && encrypted_amount@.len()
            == ENCRYPTED_VALUE_LEN && lock_amount == 0 ==> r == Err::<(), DuskError>(
            DuskError::AmountTooSmall,
        ) && *final(user_position) == *old(user_position),
        encrypted_price@.len() == ENCRYPTED_VALUE_LEN && encrypted_amount@.len()
            == ENCRYPTED_VALUE_LEN && lock_amount > 0 ==> match old(user_position).lock_error(
            lock_amount,
            is_buy,
        ) {
            Some(e) => r == Err::<(), DuskError>(e) && *final(user_position) == *old(user_position),
            None => r is Ok && *final(user_position) == (if is_buy {
                UserPosition {
                    quote_locked: (old(user_position).quote_locked + lock_amount) as u64,
                    active_order_count: (old(user_position).active_order_count + 1) as u8,
                    ..*old(user_position)
                }
            } else {
                UserPosition {
                    base_locked: (old(user_position).base_locked + lock_amount) as u64,
                    active_order_count: (old(user_position).active_order_count + 1) as u8,
                    ..*old(user_position)
                }
            }),
        },
{
    if encrypted_price.len() != ENCRYPTED_VALUE_LEN || encrypted_amount.len()
        != ENCRYPTED_VALUE_LEN {
        return Err(DuskError::InvalidEncryptedData);
    }
    if lock_amount == 0 {
        return Err(DuskError::AmountTooSmall);
    }
    user_position.lock_for_order(lock_amount, is_buy)
}

/// `n + 1`, stopping at the type's maximum.
pub open spec fn bump_u32(n: u32) -> u32 {
    if n < u32::MAX {
        (n + 1) as u32
    } else {
        n
    }
}

/// Reconciles the counters once the order table has answered. When the order
/// took a slot the market counts it (saturating); when the table was full
/// nothing is counted and the reservation made by `handler` is released.
pub fn callback_handler(
    market: &mut Market,
    user_position: &mut UserPosition,
    is_buy: bool,
    lock_amount: u64,
    inserted: bool,
)
    ensures
        inserted ==> *final(user_position) == *old(user_position) && *final(market) == (Market {
            order_count: if old(market).order_count < u64::MAX {
                (old(market).order_count + 1) as u64
            } else {
                u64::MAX
            },
            active_bids: if is_buy {
                bump_u32(old(market).active_bids)
            } else {
                old(market).active_bids
            },
            active_asks: if is_buy {
                old(market).active_asks
            } else {
                bump_u32(old(market).active_asks)
            },
            ..*old(market)
        }),
        !inserted ==> *final(market) == *old(market) && {
            let p = *old(user_position);
            let count = if p.active_order_count > 0 {
                (p.active_order_count - 1) as u8
            } else {
                0
            };
            *final(user_position) == (if is_buy {
                UserPosition {
                    quote_locked: saturating_diff(p.quote_locked, lock_amount),
                    active_order_count: count,
                    ..p
                }
            } else {
                UserPosition {
                    base_locked: saturating_diff(p.base_locked, lock_amount),
                    active_order_count: count,
                    ..p
                }
            })
        },
{
    if inserted {
        market.order_count = market.order_count.saturating_add(1);
        if is_buy {
            market.active_bids = market.active_bids.saturating_add(1);
        } else {
            market.active_asks = market.active_asks.saturating_add(1);
        }
    } else {
        user_position.unlock_for_cancel(lock_amount, is_buy);
    }
}

} // verus!
