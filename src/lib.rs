//! A confidential limit-order matching engine: a fixed-size order table with
//! price-time priority matching, and the settlement ledger that turns a
//! disclosed match into balance movements.
pub mod errors;
pub mod instructions;
pub mod orderbook;
pub mod state;
