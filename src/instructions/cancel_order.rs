//! Withdrawal of an order: the request, and the reconciliation once the order
//! table has answered.
use vstd::prelude::*;
use crate::errors::DuskError;
use crate::state::market::Market;
use crate::state::user_position::{saturating_diff, UserPosition};

verus! {

/// A cancellation may be requested only by a position with an open order.
pub fn handler(user_position: &UserPosition) -> (r: Result<(), DuskError>)
    ensures
        r == (if user_position.active_order_count > 0 {
            Ok(())
        } else {
            Err::<(), DuskError>(DuskError::OrderNotFound)
        }),
{
    if user_position.active_order_count == 0 {
        return Err(DuskError::OrderNotFound);
    }
    Ok(())
}

/// Reconciles a withdrawal. When the table cleared the order, its reservation
/// of `unlock_amount` is released, the position counts one order fewer and the
/// market one active order fewer on its side, each stopping at zero. When
/// nothing was removed nothing changes.
pub fn callback_handler(
    market: &mut Market,
    user_position: &mut UserPosition,
    removed: bool,
    unlock_amount: u64,
    is_buy: bool,
)
    ensures
        !removed ==> *final(market) == *old(market) && *final(user_position) == *old(user_position),
        removed ==> {
            let p = *old(user_position);
            let m = *old(market);
            let count = if p.active_order_count > 0 {
                (p.active_order_count - 1) as u8
            } else {
                0
            };
            &&& *final(user_position) == (if is_buy {
                UserPosition {
                    quote_locked: saturating_diff(p.quote_locked, unlock_amount),
                    active_order_count: count,
                    ..p
                }
            } else {
                UserPosition {
                    base_locked: saturating_diff(p.base_locked, unlock_amount),
                    active_order_count: count,
                    ..p
                }
            })
            &&& *final(market) == (if is_buy {
                Market {
                    active_bids: if m.active_bids > 0 {
                        (m.active_bids - 1) as u32
                    } else {
                        0
                    },
                    ..m
                }
            } else {
                Market {
                    active_asks: if m.active_asks > 0 {
                        (m.active_asks - 1) as u32
                    } else {
                        0
                    },
                    ..m
                }
            })
        },
{
    if removed {
        user_position.unlock_for_cancel(unlock_amount, is_buy);
        if is_buy {
            market.active_bids = market.active_bids.saturating_sub(1);
        } else {
            market.active_asks = market.active_asks.saturating_sub(1);
        }
    }
}

} // verus!
