//! A model of the host ledger environment a contract call runs in: the
//! call environment, the dependencies handed to every entry point, and
//! the responses a call returns to the host, including the queued
//! outbound instantiation request.

use vstd::prelude::*;

use crate::common::api::AddressApi;
use crate::common::pair::PairInitMsg;

verus! {

/// The dependencies the host hands to every contract call: the
/// contract's persisted storage and the address-canonicalization service.
pub struct Extern<S> {
    pub storage: S,
    pub api: AddressApi,
}

/// The called contract's own account.
#[derive(Debug, Clone)]
pub struct ContractInfo {
    pub address: String,
}

/// The account that sent the current message.
#[derive(Debug, Clone)]
pub struct MessageInfo {
    pub sender: String,
}

/// The environment of one contract call.
#[derive(Debug, Clone)]
pub struct Env {
    pub message: MessageInfo,
    pub contract: ContractInfo,
    pub contract_code_hash: String,
}

/// One key-value entry of a call's log output.
#[derive(Debug, Clone, PartialEq, Eq)]
pub struct LogAttribute {
    pub key: String,
    pub value: String,
}

/// Builds one log entry.
pub fn log(key: String, value: String) -> (r: LogAttribute)
    ensures
        r.key@ == key@,
        r.value@ == value@,
{
    LogAttribute { key, value }
}

/// An outbound message to the host's contract module.
#[derive(Debug, Clone)]
pub enum WasmMsg {
    /// A request to instantiate a new contract from the code template
    /// `code_id`, carrying the new instance's initialization payload.
    /// The request is queued with the current call's output and executed
    /// by the host after the call commits; the requesting contract does
    /// not await the outcome.
    Instantiate {
        code_id: u64,
        callback_code_hash: String,
        msg: PairInitMsg,
        label: String,
    },
}

/// An outbound message queued with a call's response.
#[derive(Debug, Clone)]
pub enum CosmosMsg {
    Wasm(WasmMsg),
}

/// The response of a contract's one-time initialization call.
#[derive(Debug, Clone)]
pub struct InitResponse {
    pub messages: Vec<CosmosMsg>,
    pub log: Vec<LogAttribute>,
}

impl Default for InitResponse {
    /// An empty response: no outbound messages, no log.
    fn default() -> (r: Self)
        ensures
            r.messages@.len() == 0,
            r.log@.len() == 0,
    {
        InitResponse { messages: Vec::new(), log: Vec::new() }
    }
}

/// The response of a state-changing contract call.
#[derive(Debug, Clone)]
pub struct HandleResponse {
    pub messages: Vec<CosmosMsg>,
    pub log: Vec<LogAttribute>,
    pub data: Option<Vec<u8>>,
}

impl Default for HandleResponse {
    /// An empty response: no outbound messages, no log, no data.
    fn default() -> (r: Self)
        ensures
            r.messages@.len() == 0,
            r.log@.len() == 0,
            r.data is None,
    {
        HandleResponse { messages: Vec::new(), log: Vec::new(), data: None }
    }
}

} // verus!
