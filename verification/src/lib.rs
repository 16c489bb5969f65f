//! Reserve minting logic: reserve registry, rebalance computation, rate
//! limits, manual top-ups with idempotency, and the mint-lock protocol.


pub mod outside;
pub mod model;
pub mod reserve;
pub mod state;
pub mod params;
pub mod admin;
pub mod mint;
pub mod query;
pub mod guards;
pub mod stable;
pub mod laws;
pub mod memo;
