//! Crediting a deposit to an owner's position.
use vstd::prelude::*;
use crate::errors::DuskError;
use crate::state::market::{Market, Pubkey};
use crate::state::user_position::UserPosition;

verus! {

/// Why a deposit of `amount` into `vault` would be refused, if it would.
pub open spec fn deposit_error(
    market: Market,
    position: UserPosition,
    vault: Pubkey,
    amount: u64,
    is_base: bool,
) -> Option<DuskError> {
    let expected = if is_base {
        market.base_vault
    } else {
        market.quote_vault
    };
    let held = if is_base {
        position.base_deposited
    } else {
        position.quote_deposited
    };
    if amount == 0 {
        Some(DuskError::AmountTooSmall)
    } else if vault != expected {
        Some(DuskError::InvalidMarketConfig)
    } else if held + amount > u64::MAX {
        Some(DuskError::MathOverflow)
    } else {
        None
    }
}

/// Credits `amount` of base or quote, paid into `vault`, to the position of
/// `user` in the market `market_key`. A position that has no owner yet is
/// first bound to `user`, the market and `bump`.
///
/// Refused, with nothing changed, when `amount` is zero, when `vault` is not
/// the market's vault for that asset, or when the balance would overflow.
pub fn handler(
    market: &Market,
    market_key: Pubkey,
    user_position: &mut UserPosition,
    user: Pubkey,
    vault: Pubkey,
    bump: u8,
    amount: u64,
    is_base: bool,
) -> (r: Result<(), DuskError>)
    ensures
        match deposit_error(*market, *old(user_position), vault, amount, is_base) {
            Some(e) => r == Err::<(), DuskError>(e) && *final(user_position) == *old(user_position),
            None => r is Ok && {
                let p = *old(user_position);
                let bound = if p.owner == Pubkey::zero_spec() {
                    UserPosition { owner: user, market: market_key, bump, ..p }
                } else {
                    p
                };
                *final(user_position) == (if is_base {
                    UserPosition { base_deposited: (p.base_deposited + amount) as u64, ..bound }
                } else {
                    UserPosition { quote_deposited: (p.quote_deposited + amount) as u64, ..bound }
                })
            },
        },
        old(user_position).wf() ==> final(user_position).wf(),
{
    if amount == 0 {
        return Err(DuskError::AmountTooSmall);
    }
    let expected_vault = if is_base {
        market.base_vault
    } else {
        market.quote_vault
    };
    if vault != expected_vault {
        return Err(DuskError::InvalidMarketConfig);
    }
    let held = if is_base {
        user_position.base_deposited
    } else {
        user_position.quote_deposited
    };
    let new_held = match held.checked_add(amount) {
        Some(v) => v,
        None => {
            return Err(DuskError::MathOverflow);
        },
    };
    if user_position.owner == Pubkey::zero() {
        user_position.owner = user;
        user_position.market = market_key;
        user_position.bump = bump;
    }
    if is_base {
        user_position.base_deposited = new_held;
    } else {
        user_position.quote_deposited = new_held;
    }
    Ok(())
}

} // verus!
