//! The registry (factory) contract: configuration, the append-only store
//! of pair records, and the pair-creation protocol.

pub mod contract;
pub mod msg;
pub mod state;
