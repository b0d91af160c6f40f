//! Durable records: markets, per-owner positions and trade settlements.
pub mod market;
pub mod settlement;
pub mod user_position;
