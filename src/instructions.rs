//! The exchange's operations, each a transformation of the records it is
//! handed. Custody transfers, the confidential-computation transport and the
//! clock stay with the caller, which passes in the values they produce.
pub mod cancel_order;
pub mod create_settlement;
pub mod deposit;
pub mod initialize_market;
pub mod match_orders;
pub mod place_order;
pub mod settle_trade;
pub mod withdraw;
