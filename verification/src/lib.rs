//! Core of a multiplayer game-server browser: per-game static configuration,
//! a filter predicate over discovered servers, a per-refresh deduplication
//! index, and the orchestration rules that merge several concurrent query
//! streams into one ordered event stream with a single completion signal.
//!
//! All network transport (UDP master-server protocols, HTTP master lists,
//! DNS resolution, latency probing) lives outside this crate; the functions
//! here work on plain values handed in by a driver.

pub mod dedup;
pub mod filters;
pub mod games;
pub mod orchestrator;
pub mod server;
pub mod strutil;
