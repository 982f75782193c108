//! Core of a peer-discovery DNS seed service: the address state machine,
//! the heartbeat, and the filter that decides which endpoints are published.

pub mod address;
pub mod crawler;
pub mod delta;
pub mod laws;
pub mod logging;
pub mod peers;
pub mod per_thousand;
mod sampling;
pub mod state;
pub mod storage;
pub mod table;
pub mod time_getter;
