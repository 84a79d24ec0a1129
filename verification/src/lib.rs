//! Replay core for block re-simulation: a versioned state store with an
//! in-memory override layer over a historical chain, a transaction
//! settlement engine, and a tenure-budgeted replay driver.

pub mod account;
pub mod chain;
pub mod clock;
pub mod codec;
pub mod cost;
pub mod driver;
pub mod engine;
pub mod overlay;
pub mod rpc;
pub mod store;
pub mod tx;
