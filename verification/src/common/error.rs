//! The error taxonomy shared by both contracts.

use vstd::prelude::*;

verus! {

/// Every failure a contract call can surface.
///
/// Errors are always returned to the caller, never swallowed: each
/// operation either completes or fails with no partial state change.
#[derive(Clone, Copy, Debug, PartialEq, Eq, Structural)]
pub enum ContractError {
    /// An asset identifier (or an account address) could not be converted
    /// between its human-readable and its canonical form.
    Resolution,
    /// A pair with the same unordered identity already exists in the
    /// registry; nothing was appended.
    DuplicatePair,
    /// A query for a pair that is not in the registry, including a query
    /// against a registry that has never had a pair appended.
    NotFound,
    /// A singleton slot was read before its one-time initialization ran.
    Uninitialized,
    /// The persistence medium itself failed. The in-memory store model in
    /// this crate never produces it; the host boundary that attaches real
    /// storage maps its faults here, distinct from `NotFound`.
    StorageFault,
}

} // verus!
