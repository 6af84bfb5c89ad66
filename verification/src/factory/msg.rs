//! The registry contract's wire-level messages, as plain values. Their
//! serialized encodings live at the host boundary, outside this crate's
//! verified core.

use vstd::prelude::*;

pub use crate::common::pair::PairInitMsg;

use crate::common::pair::{AssetMeta, Pair};
use crate::factory::state::State;

verus! {

/// The registry's one-time initialization message.
#[derive(Debug, Clone, Copy, PartialEq, Eq, Structural)]
pub struct InitMsg {
    pub pair_code_id: u64,
}

/// The registry's state-changing calls.
#[derive(Debug, Clone)]
pub enum HandleMsg {
    CreatePair { assets_meta: [AssetMeta; 2] },
}

/// The registry's read-only calls.
#[derive(Debug, Clone)]
pub enum QueryMsg {
    Config {},
    Pair { assets_meta: [AssetMeta; 2] },
}

/// The typed answer of a registry query; the host boundary encodes it
/// for the wire.
#[derive(Debug)]
pub enum QueryAnswer {
    Config(State),
    Pair(Pair),
}

} // verus!
