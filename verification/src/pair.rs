//! The pair record contract: one immutable record, persisted at the
//! instance's one-time initialization on behalf of the registry that
//! created it.

pub mod contract;
pub mod msg;
pub mod state;
