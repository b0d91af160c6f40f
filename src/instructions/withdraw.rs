//! Debiting a withdrawal from an owner's position.
use vstd::prelude::*;
use crate::errors::DuskError;
use crate::state::market::{Market, Pubkey};
use crate::state::user_position::UserPosition;

verus! {

/// Why a withdrawal of `amount` from `vault` would be refused, if it would.
pub open spec fn withdraw_error(
    market: Market,
    position: UserPosition,
    vault: Pubkey,
    amount: u64,
    is_base: bool,
) -> Option<DuskError> {
    let expected = if is_base {
        market.base_vault
    } else {
        market.quote_vault
    };
    let available = if is_base {
        position.base_available_spec()
    } else {
        position.quote_available_spec()
    };
    if amount == 0 {
        Some(DuskError::AmountTooSmall)
    } else if vault != expected {
        Some(DuskError::InvalidMarketConfig)
    } else if available < amount {
        Some(DuskError::InsufficientBalance)
    } else {
        None
    }
}

/// Debits `amount` of base or quote, paid out of `vault`, from the position.
/// Only the unreserved balance can be withdrawn.
///
/// Refused, with nothing changed, when `amount` is zero, when `vault` is not
/// the market's vault for that asset, or when the available balance is short.
pub fn handler(
    market: &Market,
    user_position: &mut UserPosition,
    vault: Pubkey,
    amount: u64,
    is_base: bool,
) -> (r: Result<(), DuskError>)
    ensures
        match withdraw_error(*market, *old(user_position), vault, amount, is_base) {
            Some(e) => r == Err::<(), DuskError>(e) && *final(user_position) == *old(user_position),
            None => r is Ok && *final(user_position) == (if is_base {
                UserPosition {
                    base_deposited: (old(user_position).base_deposited - amount) as u64,
                    ..*old(user_position)
                }
            } else {
                UserPosition {
                    quote_deposited: (old(user_position).quote_deposited - amount) as u64,
                    ..*old(user_position)
                }
            }),
        },
        old(user_position).wf() && r is Ok ==> final(user_position).wf(),
{
    if amount == 0 {
        return Err(DuskError::AmountTooSmall);
    }
    let expected_vault = if is_base {
        market.base_vault
    } else {
        market.quote_vault
    };
    if vault != expected_vault {
        return Err(DuskError::InvalidMarketConfig);
    }
    let available = if is_base {
        user_position.base_available()
    } else {
        user_position.quote_available()
    };
    if available < amount {
        return Err(DuskError::InsufficientBalance);
    }
    if is_base {
        user_position.base_deposited = user_position.base_deposited - amount;
    } else {
        user_position.quote_deposited = user_position.quote_deposited - amount;
    }
    Ok(())
}

} // verus!
