//! The pair record contract's wire-level messages, as plain values. The
//! initialization message is the shared [`PairInitMsg`], handed over by
//! the registry's instantiation request.

use vstd::prelude::*;

pub use crate::common::pair::PairInitMsg;

use crate::common::pair::{AssetMeta, PairRaw};

verus! {

/// The contract's state-changing calls. Liquidity accounting is not
/// designed yet; the handler accepts the call and does nothing.
#[derive(Debug, Clone)]
pub enum HandleMsg {
    AddLiquidity { assets_meta: [AssetMeta; 2], receiver: Option<String> },
}

/// The contract's read-only calls.
#[derive(Debug, Clone)]
pub enum QueryMsg {
    Pair {},
    Pool {},
}

/// The typed answer of a query; the host boundary encodes it for the
/// wire.
#[derive(Debug)]
pub enum QueryAnswer {
    Pair(PairRaw),
    Pool(String),
}

} // verus!
