//! The pair record contract's persisted state: a single slot holding the
//! canonical record, written once at initialization and immutable
//! afterwards.

use vstd::prelude::*;

use crate::common::error::ContractError;
use crate::common::pair::{PairRaw, PairRawView};

verus! {

/// The mathematical content of a pair record contract's storage.
pub struct PairStorageView {
    pub record: Option<PairRawView>,
}

/// The contract's storage: the record slot, empty until the one-time
/// initialization has run.
#[derive(Debug)]
pub struct PairStorage {
    pub record: Option<PairRaw>,
}

impl View for PairStorage {
    type V = PairStorageView;

    open spec fn view(&self) -> PairStorageView {
        match self.record {
            Some(r) => PairStorageView { record: Some(r@) },
            None => PairStorageView { record: None },
        }
    }
}

impl PairStorage {
    /// A slot that has never been written to.
    pub fn new() -> (s: Self)
        ensures
            s@.record is None,
    {
        PairStorage { record: None }
    }
}

/// Saves the contract's record singleton.
pub fn config(storage: &mut PairStorage, record: PairRaw)
    ensures
        final(storage)@.record == Some(record@),
{
    storage.record = Some(record);
}

/// Loads the contract's record singleton; fails if the contract was
/// never initialized.
pub fn config_read(storage: &PairStorage) -> (r: Result<PairRaw, ContractError>)
    ensures
        match r {
            Ok(p) => storage@.record == Some(p@),
            Err(e) => storage@.record is None && e == ContractError::Uninitialized,
        },
{
    match &storage.record {
        Some(record) => Ok(record.clone()),
        None => Err(ContractError::Uninitialized),
    }
}

} // verus!
