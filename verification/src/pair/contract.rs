//! The pair record contract's entry points: the one-time initialization
//! that persists the canonical record, and the read-only queries.

use vstd::prelude::*;
use vstd::string::StringExecFns;

use crate::common::api::AddressApi;
use crate::common::error::ContractError;
use crate::common::host::{Env, Extern, HandleResponse, InitResponse};
use crate::common::pair::{id_of, AssetMeta, Pair, PairInitMsg, PairRaw, PairRawView};
use crate::pair::msg::{HandleMsg, QueryAnswer, QueryMsg};
use crate::pair::state::{config, config_read, PairStorage, PairStorageView};

verus! {

/// What the one-time initialization decides, given the call's inputs:
/// the canonical record to persist — both descriptors and the creating
/// registry's address resolved to canonical form, with the identity
/// derived from the two canonical assets in the supplied order — or a
/// resolution error if any of the three is not resolvable.
pub open spec fn init_outcome(
    api: AddressApi,
    a0: Seq<char>,
    a1: Seq<char>,
    creator: Seq<char>,
) -> Result<PairRawView, ContractError> {
    if api.canon_of(a0) is None || api.canon_of(a1) is None || api.canon_of(creator) is None {
        Err(ContractError::Resolution)
    } else {
        Ok(
            PairRawView {
                id: id_of(api.canon_of(a0)->0, api.canon_of(a1)->0),
                assets: (api.canon_of(a0)->0, api.canon_of(a1)->0),
                contract_addr: api.canon_of(creator)->0,
            },
        )
    }
}

/// What the record query returns, given the contract's storage: the
/// persisted record, or an uninitialized error — never a panic — if the
/// one-time initialization has not run.
pub open spec fn query_record_outcome(store: PairStorageView) -> Result<
    PairRawView,
    ContractError,
> {
    match store.record {
        Some(r) => Ok(r),
        None => Err(ContractError::Uninitialized),
    }
}

/// One-time initialization, invoked by the host on behalf of the
/// registry's instantiation request: resolves the two descriptors and
/// the creating registry's address and persists the canonical record.
/// On a resolution error nothing is persisted.
pub fn init(deps: &mut Extern<PairStorage>, env: Env, msg: PairInitMsg) -> (r: Result<
    InitResponse,
    ContractError,
>)
    ensures
        final(deps).api == old(deps).api,
        match r {
            Ok(resp) => init_outcome(
                old(deps).api,
                msg.assets_meta@[0]@,
                msg.assets_meta@[1]@,
                env.message.sender@,
            ) matches Ok(rec) && final(deps).storage@.record == Some(rec) && resp.messages@.len()
                == 0 && resp.log@.len() == 0,
            Err(e) => init_outcome(
                old(deps).api,
                msg.assets_meta@[0]@,
                msg.assets_meta@[1]@,
                env.message.sender@,
            ) == Err::<PairRawView, ContractError>(e) && final(deps).storage@.record == old(
                deps,
            ).storage@.record,
        },
{
    let pair = match Pair::new(&msg.assets_meta, env.message.sender, &deps.api) {
        Ok(p) => p,
        Err(e) => {
            return Err(e);
        },
    };
    let record = match pair.to_raw(&deps.api) {
        Ok(raw) => raw,
        Err(e) => {
            return Err(e);
        },
    };
    config(&mut deps.storage, record);
    Ok(InitResponse::default())
}

/// Reads the persisted record; see [`query_record_outcome`].
pub fn query_pair(deps: &Extern<PairStorage>) -> (r: Result<PairRaw, ContractError>)
    ensures
        match r {
            Ok(p) => query_record_outcome(deps.storage@) == Ok::<PairRawView, ContractError>(p@),
            Err(e) => query_record_outcome(deps.storage@) == Err::<PairRawView, ContractError>(e),
        },
{
    config_read(&deps.storage)
}

/// The pool query is a placeholder: pool mechanics are not designed yet.
pub fn query_pool(_deps: &Extern<PairStorage>) -> (r: Result<String, ContractError>)
    ensures
        r matches Ok(s) && s@ == "test"@,
{
    Ok(String::from_str("test"))
}

/// Dispatches a read-only call, answering with a typed value.
pub fn query(deps: &Extern<PairStorage>, msg: QueryMsg) -> (r: Result<QueryAnswer, ContractError>)
    ensures
        match msg {
            QueryMsg::Pair {  } => match r {
                Ok(answer) => answer matches QueryAnswer::Pair(p) && query_record_outcome(
                    deps.storage@,
                ) == Ok::<PairRawView, ContractError>(p@),
                Err(e) => query_record_outcome(deps.storage@) == Err::<
                    PairRawView,
                    ContractError,
                >(e),
            },
            QueryMsg::Pool {  } => r matches Ok(answer) && answer matches QueryAnswer::Pool(s)
                && s@ == "test"@,
        },
{
    match msg {
        QueryMsg::Pair {  } => match query_pair(deps) {
            Ok(p) => Ok(QueryAnswer::Pair(p)),
            Err(e) => Err(e),
        },
        QueryMsg::Pool {  } => match query_pool(deps) {
            Ok(s) => Ok(QueryAnswer::Pool(s)),
            Err(e) => Err(e),
        },
    }
}

/// Dispatches a state-changing call. No handler mutates anything yet.
pub fn handle(deps: &mut Extern<PairStorage>, _env: Env, _msg: HandleMsg) -> (r: Result<
    HandleResponse,
    ContractError,
>)
    ensures
        *final(deps) == *old(deps),
        r matches Ok(resp) && resp.messages@.len() == 0 && resp.log@.len() == 0 && resp.data
            is None,
{
    Ok(HandleResponse::default())
}

/// The liquidity handler only checks that the contract is initialized;
/// the accounting itself is out of scope and nothing is mutated.
pub fn try_add_liquidity(
    deps: &mut Extern<PairStorage>,
    _env: Env,
    _assets: [AssetMeta; 2],
    _receiver: Option<String>,
) -> (r: Result<HandleResponse, ContractError>)
    ensures
        *final(deps) == *old(deps),
        match r {
            Ok(resp) => old(deps).storage@.record is Some && resp.messages@.len() == 0
                && resp.log@.len() == 0 && resp.data is None,
            Err(e) => old(deps).storage@.record is None && e == ContractError::Uninitialized,
        },
{
    let _cfg = match config_read(&deps.storage) {
        Ok(c) => c,
        Err(e) => {
            return Err(e);
        },
    };
    Ok(HandleResponse::default())
}

/// The record contract's round trip: once the one-time initialization
/// has persisted the record decided by [`init_outcome`], the record
/// query returns exactly that record — the resolved canonical form of
/// the two descriptors and of the creating registry's address. Before
/// initialization the query fails with the uninitialized error.
pub proof fn lemma_init_then_get_record(
    api: AddressApi,
    a0: Seq<char>,
    a1: Seq<char>,
    creator: Seq<char>,
    rec: PairRawView,
    post: PairStorageView,
)
    requires
        init_outcome(api, a0, a1, creator) == Ok::<PairRawView, ContractError>(rec),
        post.record == Some(rec),
    ensures
        query_record_outcome(post) == Ok::<PairRawView, ContractError>(rec),
        rec.assets.0 == api.canon_of(a0)->0,
        rec.assets.1 == api.canon_of(a1)->0,
        rec.contract_addr == api.canon_of(creator)->0,
        rec.id == id_of(rec.assets.0, rec.assets.1),
{
}

/// Querying the record before initialization fails with the
/// uninitialized error, and with no other.
pub proof fn lemma_get_record_uninitialized(store: PairStorageView)
    requires
        store.record is None,
    ensures
        query_record_outcome(store) == Err::<PairRawView, ContractError>(
            ContractError::Uninitialized,
        ),
{
}

} // verus!
