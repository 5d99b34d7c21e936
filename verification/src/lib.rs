//! Arbitrage detection and risk bookkeeping for matched prediction markets
//! quoted on two venues.
//!
//! Feed handlers apply best-ask updates to a shared store of markets, the
//! detector evaluates the four hedge combinations of each market and picks
//! the most profitable one, and the position tracker gates further
//! detections and drives the loss alarm.
//!
//! Venue A is Kalshi, which charges a fee on every leg bought there; venue
//! B is Polymarket, which charges none.

pub mod clock;
pub mod config;
pub mod execution;
pub mod feed;
pub mod json;
pub mod kalshi;
pub mod monitor;
pub mod polymarket;
pub mod position_tracker;
pub mod shared;
pub mod store;
pub mod text;
pub mod types;
