//! What one owner holds in one market.
use vstd::prelude::*;
use crate::errors::DuskError;
use crate::state::market::Pubkey;

verus! {

/// `a - b`, or zero when `b` exceeds `a`.
pub open spec fn saturating_diff(a: u64, b: u64) -> u64 {
    if a >= b {
        (a - b) as u64
    } else {
        0
    }
}

/// Custody record of one owner in one market. `*_deposited` is everything
/// held, `*_locked` the part reserved against open orders.
#[derive(Clone, Copy, Debug)]
pub struct UserPosition {
    pub owner: Pubkey,
    pub market: Pubkey,
    pub base_deposited: u64,
    pub quote_deposited: u64,
    pub base_locked: u64,
    pub quote_locked: u64,
    pub active_order_count: u8,
    pub bump: u8,
}

impl UserPosition {
    /// Locked never exceeds deposited, for either asset.
    pub open spec fn wf(self) -> bool {
        self.base_locked <= self.base_deposited && self.quote_locked <= self.quote_deposited
    }

    pub open spec fn base_available_spec(self) -> u64 {
        saturating_diff(self.base_deposited, self.base_locked)
    }

    pub open spec fn quote_available_spec(self) -> u64 {
        saturating_diff(self.quote_deposited, self.quote_locked)
    }

    /// Base held and not reserved.
    pub fn base_available(&self) -> (r: u64)
        ensures
            r == self.base_available_spec(),
    {
        self.base_deposited.saturating_sub(self.base_locked)
    }

    /// Quote held and not reserved.
    pub fn quote_available(&self) -> (r: u64)
        ensures
            r == self.quote_available_spec(),
    {
        self.quote_deposited.saturating_sub(self.quote_locked)
    }

    /// Why reserving `amount` for a new order would be refused, if it would.
    pub open spec fn lock_error(self, amount: u64, is_buy: bool) -> Option<DuskError> {
        let available = if is_buy {
            self.quote_available_spec()
        } else {
            self.base_available_spec()
        };
        let locked = if is_buy {
            self.quote_locked
        } else {
            self.base_locked
        };
        if available < amount {
            Some(DuskError::InsufficientBalance)
        } else if locked + amount > u64::MAX {
            Some(DuskError::MathOverflow)
        } else if self.active_order_count == u8::MAX {
            Some(DuskError::TooManyOrders)
        } else {
            None
        }
    }

    /// Reserves `amount` of quote (buy) or base (sell) for a new order and
    /// counts the order. On refusal nothing changes.
    pub fn lock_for_order(&mut self, amount: u64, is_buy: bool) -> (r: Result<(), DuskError>)
        ensures
            match old(self).lock_error(amount, is_buy) {
                Some(e) => r == Err::<(), DuskError>(e) && *final(self) == *old(self),
                None => r is Ok && *final(self) == (if is_buy {
                    UserPosition {
                        quote_locked: (old(self).quote_locked + amount) as u64,
                        active_order_count: (old(self).active_order_count + 1) as u8,
                        ..*old(self)
                    }
                } else {
                    UserPosition {
                        base_locked: (old(self).base_locked + amount) as u64,
                        active_order_count: (old(self).active_order_count + 1) as u8,
                        ..*old(self)
                    }
                }),
            },
            old(self).wf() ==> final(self).wf(),
    {
        let available = if is_buy {
            self.quote_available()
        } else {
            self.base_available()
        };
        if available < amount {
            return Err(DuskError::InsufficientBalance);
        }
        let locked = if is_buy {
            self.quote_locked
        } else {
            self.base_locked
        };
        let new_locked = match locked.checked_add(amount) {
            Some(v) => v,
            None => {
                return Err(DuskError::MathOverflow);
            },
        };
        let new_count = match self.active_order_count.checked_add(1) {
            Some(v) => v,
            None => {
                return Err(DuskError::TooManyOrders);
            },
        };
        if is_buy {
            self.quote_locked = new_locked;
        } else {
            self.base_locked = new_locked;
        }
        self.active_order_count = new_count;
        Ok(())
    }

    /// Releases `amount` reserved for a cancelled order and uncounts it, each
    /// stopping at zero.
    pub fn unlock_for_cancel(&mut self, amount: u64, is_buy: bool)
        ensures
            *final(self) == (if is_buy {
                UserPosition {
                    quote_locked: saturating_diff(old(self).quote_locked, amount),
                    active_order_count: if old(self).active_order_count > 0 {
                        (old(self).active_order_count - 1) as u8
                    } else {
                        0
                    },
                    ..*old(self)
                }
            } else {
                UserPosition {
                    base_locked: saturating_diff(old(self).base_locked, amount),
                    active_order_count: if old(self).active_order_count > 0 {
                        (old(self).active_order_count - 1) as u8
                    } else {
                        0
                    },
                    ..*old(self)
                }
            }),
            old(self).wf() ==> final(self).wf(),
    {
        if is_buy {
            self.quote_locked = self.quote_locked.saturating_sub(amount);
        } else {
            self.base_locked = self.base_locked.saturating_sub(amount);
        }
        self.active_order_count = self.active_order_count.saturating_sub(1);
    }
}

/// The seed prefix of a position record: the ASCII bytes of `user_position`.
pub open spec fn user_position_prefix() -> Seq<u8> {
    seq![117u8, 115, 101, 114, 95, 112, 111, 115, 105, 116, 105, 111, 110]
}

/// The seeds that locate the position of `owner` in `market`: the prefix, then
/// the two keys' bytes.
pub fn user_position_seeds(market: &Pubkey, owner: &Pubkey) -> (r: [Vec<u8>; 3])
    ensures
        r@[0]@ == user_position_prefix(),
        r@[1]@ == market.bytes_spec(),
        r@[2]@ == owner.bytes_spec(),
{
    let prefix: Vec<u8> = vec![117u8, 115, 101, 114, 95, 112, 111, 115, 105, 116, 105, 111, 110];
    assert(prefix@ =~= user_position_prefix());
    [prefix, market.to_bytes(), owner.to_bytes()]
}

} // verus!
