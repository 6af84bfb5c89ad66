//! A deduplicated registry of trading pairs for a ledger-style exchange,
//! together with the per-pair record contract it instantiates.
//!
//! The crate is split the way the running system is:
//!
//! - [`common`] holds the asset and pair data model shared by both
//!   contracts: asset descriptors in human-readable and canonical form,
//!   the pair record with its derived identity, and a model of the host
//!   environment (address canonicalization, call environment, responses).
//! - [`factory`] is the registry contract: an append-only log of pair
//!   records with an existence-checked creation protocol that derives an
//!   order-independent identity for each unordered pair of assets and
//!   emits an instantiation request for the pair's own record contract.
//! - [`pair`] is the pair record contract: a single immutable record,
//!   written once at initialization, holding the canonical form of the
//!   pair and of the registry that created it.

pub mod common;
pub mod factory;
pub mod pair;
