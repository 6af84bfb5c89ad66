//! Data model and host-environment model shared by the registry (factory)
//! contract and the pair record contract.

pub mod api;
pub mod bytes;
pub mod error;
pub mod host;
pub mod pair;
