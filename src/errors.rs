//! Errors surfaced by the exchange's operations.
use vstd::prelude::*;

verus! {

/// Why an operation was rejected. A rejected operation changes nothing.
#[derive(Clone, Copy, Debug, PartialEq, Eq, Structural)]
pub enum DuskError {
    /// Available balance is below what the operation needs.
    InsufficientBalance,
    /// A balance or counter would leave its representable range.
    MathOverflow,
    /// The per-position order counter is at its maximum.
    TooManyOrders,
    /// No such order.
    OrderNotFound,
    /// Malformed order parameters.
    InvalidOrderParams,
    /// The order was already cancelled.
    OrderAlreadyCancelled,
    /// The trade was already settled.
    TradeAlreadySettled,
    /// The caller does not own the record.
    Unauthorized,
    /// The market is paused.
    MarketPaused,
    /// A record does not belong to this market.
    InvalidMarketConfig,
    /// The order table is full.
    OrderbookFull,
    /// No orders to match, or no pending match to record.
    NoMatchingOrders,
    /// Both sides of a match belong to one owner.
    SelfTrade,
    /// Price out of range.
    InvalidPrice,
    /// Amount below the minimum.
    AmountTooSmall,
    /// A confidential computation is still outstanding.
    ComputationNotReady,
    /// An encrypted argument has the wrong shape.
    InvalidEncryptedData,
    /// The confidential computation failed.
    ArciumComputationFailed,
}

impl DuskError {
    /// The human-readable message of the error.
    pub fn message(&self) -> (r: &'static str) {
        match self {
            DuskError::InsufficientBalance => "Insufficient balance for this operation",
            DuskError::MathOverflow => "Math overflow occurred",
            DuskError::TooManyOrders => "Too many active orders",
            DuskError::OrderNotFound => "Order not found",
            DuskError::InvalidOrderParams => "Invalid order parameters",
            DuskError::OrderAlreadyCancelled => "Order already cancelled",
            DuskError::TradeAlreadySettled => "Trade already settled",
            DuskError::Unauthorized => "Unauthorized operation",
            DuskError::MarketPaused => "Market is paused",
            DuskError::InvalidMarketConfig => "Invalid market configuration",
            DuskError::OrderbookFull => "Orderbook is full",
            DuskError::NoMatchingOrders => "No matching orders found",
            DuskError::SelfTrade => "Self-trade prevention",
            DuskError::InvalidPrice => "Price out of valid range",
            DuskError::AmountTooSmall => "Amount below minimum",
            DuskError::ComputationNotReady => "Computation not ready",
            DuskError::InvalidEncryptedData => "Invalid encrypted data",
            DuskError::ArciumComputationFailed => "Arcium computation failed",
        }
    }
}

} // verus!
