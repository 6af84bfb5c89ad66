//! The registry's entry points: one-time initialization, the pair
//! creation protocol, and the read-only queries.
//!
//! `try_handle_create_pair` is the heart of the crate: it resolves the
//! two descriptors, derives the pair's identity from the canonical forms
//! in the caller-supplied order, scans the log in reverse for a duplicate
//! under order-insensitive equality, appends the new record, and queues
//! exactly one instantiation request for the pair's own record contract.

use vstd::prelude::*;
use vstd::string::StringExecFns;

use crate::common::api::AddressApi;
use crate::common::error::ContractError;
use crate::common::host::{
    log, CosmosMsg, Env, Extern, HandleResponse, InitResponse, LogAttribute, WasmMsg,
};
use crate::common::pair::{id_of, AssetMeta, Pair, PairInitMsg, PairView};
use crate::factory::msg::{HandleMsg, InitMsg, QueryAnswer, QueryMsg};
use crate::factory::state::{
    config, config_read, find_match, lemma_find_match_push, lemma_find_match_symmetric,
    lemma_registry_wf_push, record_canon0, record_canon1, record_resolved, registry_wf,
    FactoryStorage, FactoryStorageView, State,
};

verus! {

/// What one `create_pair` call decides, given the registry's state and
/// the call's inputs: either the record to append, or the error that
/// aborts the call with no state change. The checks run in order:
/// configuration, resolution of both descriptors, duplicate scan.
pub open spec fn create_pair_outcome(
    api: AddressApi,
    store: FactoryStorageView,
    registry_addr: Seq<char>,
    a0: Seq<char>,
    a1: Seq<char>,
) -> Result<PairView, ContractError> {
    if store.state is None {
        Err(ContractError::Uninitialized)
    } else if api.canon_of(a0) is None || api.canon_of(a1) is None {
        Err(ContractError::Resolution)
    } else if find_match(store.pairs, api.canon_of(a0)->0, api.canon_of(a1)->0) is Some {
        Err(ContractError::DuplicatePair)
    } else {
        Ok(
            PairView {
                id: id_of(api.canon_of(a0)->0, api.canon_of(a1)->0),
                assets: (a0, a1),
                contract_addr: registry_addr,
            },
        )
    }
}

/// What one `get_pair` query returns, given the registry's log and the
/// query's inputs: the most recently appended record matching the
/// unordered pair, a not-found error (also for a log never written to),
/// or a resolution error.
pub open spec fn query_pair_outcome(
    api: AddressApi,
    pairs: Seq<PairView>,
    a0: Seq<char>,
    a1: Seq<char>,
) -> Result<PairView, ContractError> {
    if api.canon_of(a0) is None || api.canon_of(a1) is None {
        Err(ContractError::Resolution)
    } else {
        match find_match(pairs, api.canon_of(a0)->0, api.canon_of(a1)->0) {
            Some(p) => Ok(p),
            None => Err(ContractError::NotFound),
        }
    }
}

/// The label under which the pair's record contract is instantiated.
pub open spec fn pair_label_view(a0: Seq<char>, a1: Seq<char>) -> Seq<char> {
    "pair-"@ + a0 + "-"@ + a1
}

/// The response of a successful `create_pair`: exactly one queued
/// instantiation request, addressed by the configured code template and
/// carrying the two descriptors in caller order, plus the log entries
/// that acknowledge the creation.
pub open spec fn create_pair_response(
    resp: HandleResponse,
    cfg: State,
    env: Env,
    a0: Seq<char>,
    a1: Seq<char>,
) -> bool {
    &&& resp.messages@.len() == 1
    &&& resp.messages@[0] matches CosmosMsg::Wasm(
        WasmMsg::Instantiate { code_id, callback_code_hash, msg, label },
    ) && code_id == cfg.pair_code_id && callback_code_hash@ == env.contract_code_hash@
        && msg.assets_meta@[0]@ == a0 && msg.assets_meta@[1]@ == a1 && label@ == pair_label_view(
        a0,
        a1,
    )
    &&& resp.log@.len() == 2
    &&& resp.log@[0].key@ == "action"@
    &&& resp.log@[0].value@ == "create_pair"@
    &&& resp.log@[1].key@ == "pair"@
    &&& resp.log@[1].value@ == a0 + "-"@ + a1
    &&& resp.data is None
}

/// The full contract of one `create_pair` call, relating the state
/// before and after the call to its result: the decision follows
/// `create_pair_outcome`; an error leaves the log unchanged; success
/// appends exactly the decided record and answers with the decided
/// response; the configuration, the address service and the registry
/// invariant are preserved.
pub open spec fn create_pair_post(
    pre: Extern<FactoryStorage>,
    post: Extern<FactoryStorage>,
    env: Env,
    a0: Seq<char>,
    a1: Seq<char>,
    r: Result<HandleResponse, ContractError>,
) -> bool {
    &&& post.api == pre.api
    &&& post.storage@.state == pre.storage@.state
    &&& match r {
        Ok(resp) => create_pair_outcome(pre.api, pre.storage@, env.contract.address@, a0, a1)
            matches Ok(p) && post.storage@.pairs == pre.storage@.pairs.push(p)
            && create_pair_response(resp, pre.storage@.state->0, env, a0, a1),
        Err(e) => create_pair_outcome(pre.api, pre.storage@, env.contract.address@, a0, a1)
            == Err::<PairView, ContractError>(e) && post.storage@.pairs == pre.storage@.pairs,
    }
    &&& (pre.api.wf() && registry_wf(pre.api, pre.storage@.pairs)) ==> registry_wf(
        post.api,
        post.storage@.pairs,
    )
}

/// One-time initialization: saves the code template identifier of the
/// pair record contract. The log is untouched.
pub fn init(deps: &mut Extern<FactoryStorage>, _env: Env, msg: InitMsg) -> (r: Result<
    InitResponse,
    ContractError,
>)
    ensures
        final(deps).api == old(deps).api,
        final(deps).storage@.state == Some(State { pair_code_id: msg.pair_code_id }),
        final(deps).storage@.pairs == old(deps).storage@.pairs,
        r matches Ok(resp) && resp.messages@.len() == 0 && resp.log@.len() == 0,
{
    let state = State { pair_code_id: msg.pair_code_id };
    config(&mut deps.storage, state);
    Ok(InitResponse::default())
}

/// Dispatches a state-changing call.
pub fn handle(deps: &mut Extern<FactoryStorage>, env: Env, msg: HandleMsg) -> (r: Result<
    HandleResponse,
    ContractError,
>)
    ensures
        match msg {
            HandleMsg::CreatePair { assets_meta } => create_pair_post(
                *old(deps),
                *final(deps),
                env,
                assets_meta@[0]@,
                assets_meta@[1]@,
                r,
            ),
        },
{
    match msg {
        HandleMsg::CreatePair { assets_meta } => try_handle_create_pair(deps, env, assets_meta),
    }
}

/// The pair creation protocol; see [`create_pair_post`] for the full
/// contract.
pub fn try_handle_create_pair(
    deps: &mut Extern<FactoryStorage>,
    env: Env,
    assets: [AssetMeta; 2],
) -> (r: Result<HandleResponse, ContractError>)
    ensures
        create_pair_post(*old(deps), *final(deps), env, assets@[0]@, assets@[1]@, r),
{
    let cfg = match config_read(&deps.storage) {
        Ok(c) => c,
        Err(e) => {
            return Err(e);
        },
    };
    let raw0 = match assets[0].to_raw(&deps.api) {
        Ok(raw) => raw,
        Err(e) => {
            return Err(e);
        },
    };
    let raw1 = match assets[1].to_raw(&deps.api) {
        Ok(raw) => raw,
        Err(e) => {
            return Err(e);
        },
    };
    match deps.storage.find_pair(raw0.as_bytes(), raw1.as_bytes()) {
        Some(_) => {
            return Err(ContractError::DuplicatePair);
        },
        None => {},
    }
    let pair = match Pair::new(&assets, env.contract.address.clone(), &deps.api) {
        Ok(p) => p,
        Err(e) => {
            return Err(e);
        },
    };
    let label = pair_label(assets[0].address(), assets[1].address());
    let tag = pair_tag(assets[0].address(), assets[1].address());
    let init_msg = WasmMsg::Instantiate {
        code_id: cfg.pair_code_id,
        callback_code_hash: env.contract_code_hash.clone(),
        msg: PairInitMsg { assets_meta: [assets[0].clone(), assets[1].clone()] },
        label,
    };
    proof {
        let api = deps.api;
        let pre_pairs = deps.storage@.pairs;
        let p = pair@;
        if api.wf() && registry_wf(api, pre_pairs) {
            assert(record_resolved(api, p));
            assert(record_canon0(api, p) == raw0@);
            assert(record_canon1(api, p) == raw1@);
            lemma_registry_wf_push(api, pre_pairs, p);
        }
    }
    deps.storage.append(pair);
    let mut messages: Vec<CosmosMsg> = Vec::new();
    messages.push(CosmosMsg::Wasm(init_msg));
    let mut logs: Vec<LogAttribute> = Vec::new();
    logs.push(log(String::from_str("action"), String::from_str("create_pair")));
    logs.push(log(String::from_str("pair"), tag));
    proof {
        reveal_strlit("action");
        reveal_strlit("create_pair");
        reveal_strlit("pair");
    }
    Ok(HandleResponse { messages, log: logs, data: None })
}

/// Reads the registry's configuration.
pub fn query_config(deps: &Extern<FactoryStorage>) -> (r: Result<State, ContractError>)
    ensures
        match r {
            Ok(s) => deps.storage@.state == Some(s),
            Err(e) => deps.storage@.state is None && e == ContractError::Uninitialized,
        },
{
    config_read(&deps.storage)
}

/// The read-only pair lookup; see [`query_pair_outcome`] for the full
/// contract. A registry never written to answers not-found, not a
/// storage fault.
pub fn query_pair(deps: &Extern<FactoryStorage>, assets: [AssetMeta; 2]) -> (r: Result<
    Pair,
    ContractError,
>)
    ensures
        match r {
            Ok(p) => query_pair_outcome(deps.api, deps.storage@.pairs, assets@[0]@, assets@[1]@)
                == Ok::<PairView, ContractError>(p@),
            Err(e) => query_pair_outcome(deps.api, deps.storage@.pairs, assets@[0]@, assets@[1]@)
                == Err::<PairView, ContractError>(e),
        },
{
    let raw0 = match assets[0].to_raw(&deps.api) {
        Ok(raw) => raw,
        Err(e) => {
            return Err(e);
        },
    };
    let raw1 = match assets[1].to_raw(&deps.api) {
        Ok(raw) => raw,
        Err(e) => {
            return Err(e);
        },
    };
    match deps.storage.find_pair(raw0.as_bytes(), raw1.as_bytes()) {
        Some(p) => Ok(p),
        None => Err(ContractError::NotFound),
    }
}

/// Dispatches a read-only call, answering with a typed value.
pub fn query(deps: &Extern<FactoryStorage>, msg: QueryMsg) -> (r: Result<
    QueryAnswer,
    ContractError,
>)
    ensures
        match msg {
            QueryMsg::Config {  } => match r {
                Ok(answer) => answer matches QueryAnswer::Config(s) && deps.storage@.state
                    == Some(s),
                Err(e) => deps.storage@.state is None && e == ContractError::Uninitialized,
            },
            QueryMsg::Pair { assets_meta } => match r {
                Ok(answer) => answer matches QueryAnswer::Pair(p) && query_pair_outcome(
                    deps.api,
                    deps.storage@.pairs,
                    assets_meta@[0]@,
                    assets_meta@[1]@,
                ) == Ok::<PairView, ContractError>(p@),
                Err(e) => query_pair_outcome(
                    deps.api,
                    deps.storage@.pairs,
                    assets_meta@[0]@,
                    assets_meta@[1]@,
                ) == Err::<PairView, ContractError>(e),
            },
        },
{
    match msg {
        QueryMsg::Config {  } => match query_config(deps) {
            Ok(s) => Ok(QueryAnswer::Config(s)),
            Err(e) => Err(e),
        },
        QueryMsg::Pair { assets_meta } => match query_pair(deps, assets_meta) {
            Ok(p) => Ok(QueryAnswer::Pair(p)),
            Err(e) => Err(e),
        },
    }
}

/// The tag `a-b` used in the creation acknowledgement.
fn pair_tag(a: &String, b: &String) -> (r: String)
    ensures
        r@ == a@ + "-"@ + b@,
{
    let mut s = a.clone();
    s.append("-");
    s.append(b.as_str());
    s
}

/// The label `pair-a-b` under which the record contract is instantiated.
fn pair_label(a: &String, b: &String) -> (r: String)
    ensures
        r@ == pair_label_view(a@, b@),
{
    let mut s = String::from_str("pair-");
    s.append(a.as_str());
    s.append("-");
    s.append(b.as_str());
    s
}

/// Order independence of creation and lookup: a record created from the
/// descriptors in either order is what both lookups return afterwards.
/// With the record for `(a0, a1)` just appended, `get_pair` answers that
/// same record for `(a0, a1)` and for `(a1, a0)` alike.
pub proof fn lemma_order_independence(
    api: AddressApi,
    pre: FactoryStorageView,
    registry_addr: Seq<char>,
    a0: Seq<char>,
    a1: Seq<char>,
    p: PairView,
    post_pairs: Seq<PairView>,
)
    requires
        create_pair_outcome(api, pre, registry_addr, a0, a1) == Ok::<PairView, ContractError>(p),
        post_pairs == pre.pairs.push(p),
    ensures
        query_pair_outcome(api, post_pairs, a0, a1) == Ok::<PairView, ContractError>(p),
        query_pair_outcome(api, post_pairs, a1, a0) == Ok::<PairView, ContractError>(p),
{
    let ca = api.canon_of(a0)->0;
    let cb = api.canon_of(a1)->0;
    lemma_find_match_push(pre.pairs, p, ca, cb);
    lemma_find_match_push(pre.pairs, p, cb, ca);
}

/// Order independence of the lookup alone: against any log whatsoever,
/// `get_pair` answers the same for the two descriptors in either order.
pub proof fn lemma_query_pair_order_independent(
    api: AddressApi,
    pairs: Seq<PairView>,
    a0: Seq<char>,
    a1: Seq<char>,
)
    ensures
        query_pair_outcome(api, pairs, a0, a1) == query_pair_outcome(api, pairs, a1, a0),
{
    if api.canon_of(a0) is Some && api.canon_of(a1) is Some {
        lemma_find_match_symmetric(pairs, api.canon_of(a0)->0, api.canon_of(a1)->0);
    }
}

/// Idempotent rejection: once a pair's record is in the log, creating
/// the same unordered pair again — in either order — fails with the
/// duplicate error, and by [`create_pair_post`] a failed call leaves the
/// log unchanged.
pub proof fn lemma_idempotent_rejection(
    api: AddressApi,
    pre: FactoryStorageView,
    post: FactoryStorageView,
    registry_addr: Seq<char>,
    a0: Seq<char>,
    a1: Seq<char>,
    p: PairView,
)
    requires
        create_pair_outcome(api, pre, registry_addr, a0, a1) == Ok::<PairView, ContractError>(p),
        post.state == pre.state,
        post.pairs == pre.pairs.push(p),
    ensures
        create_pair_outcome(api, post, registry_addr, a0, a1) == Err::<PairView, ContractError>(
            ContractError::DuplicatePair,
        ),
        create_pair_outcome(api, post, registry_addr, a1, a0) == Err::<PairView, ContractError>(
            ContractError::DuplicatePair,
        ),
{
    let ca = api.canon_of(a0)->0;
    let cb = api.canon_of(a1)->0;
    lemma_find_match_push(pre.pairs, p, ca, cb);
    lemma_find_match_push(pre.pairs, p, cb, ca);
}

/// A freshly initialized registry holds no pairs, so a lookup of any
/// resolvable pair answers not-found — an empty log is a valid state,
/// not a storage fault.
pub proof fn lemma_empty_registry_not_found(api: AddressApi, a0: Seq<char>, a1: Seq<char>)
    requires
        api.canon_of(a0) is Some,
        api.canon_of(a1) is Some,
    ensures
        query_pair_outcome(api, Seq::<PairView>::empty(), a0, a1) == Err::<
            PairView,
            ContractError,
        >(ContractError::NotFound),
{
    assert(find_match(Seq::<PairView>::empty(), api.canon_of(a0)->0, api.canon_of(a1)->0)
        is None);
}

} // verus!
