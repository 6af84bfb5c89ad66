//! Tests of the pair record contract: one-time initialization, the
//! record query, and the placeholder handlers.

use pair_registry::common::api::AddressApi;
use pair_registry::common::error::ContractError;
use pair_registry::common::host::{ContractInfo, Env, Extern, MessageInfo};
use pair_registry::common::pair::{AssetMeta, PairInitMsg};
use pair_registry::pair::contract::{handle, init, query, query_pair, query_pool, try_add_liquidity};
use pair_registry::pair::msg::{HandleMsg, QueryAnswer, QueryMsg};
use pair_registry::pair::state::PairStorage;

const MOCK_CONTRACT_ADDR: &str = "cosmos2contract";

fn mock_env(sender: &str) -> Env {
    Env {
        message: MessageInfo {
            sender: sender.to_string(),
        },
        contract: ContractInfo {
            address: MOCK_CONTRACT_ADDR.to_string(),
        },
        contract_code_hash: "testhash".to_string(),
    }
}

fn canon(tag: u8) -> Vec<u8> {
    vec![tag; 20]
}

fn mock_dependencies(entries: &[(&str, u8)]) -> Extern<PairStorage> {
    let mut api = AddressApi::new(20);
    for (human, tag) in entries {
        assert!(api.register(human.to_string(), canon(*tag)));
    }
    Extern {
        storage: PairStorage::new(),
        api,
    }
}

fn token(addr: &str) -> AssetMeta {
    AssetMeta::Token {
        contract_addr: addr.to_string(),
    }
}

fn concat(a: &[u8], b: &[u8]) -> Vec<u8> {
    let mut out = a.to_vec();
    out.extend_from_slice(b);
    out
}

#[test]
fn contract_proper_initialization() {
    let mut deps = mock_dependencies(&[(MOCK_CONTRACT_ADDR, 7), ("creator", 8)]);
    let env = mock_env("creator");

    let assets_meta = [token(MOCK_CONTRACT_ADDR), token(MOCK_CONTRACT_ADDR)];
    let msg = PairInitMsg { assets_meta };

    let _res = init(&mut deps, env, msg).unwrap();
    let msg = QueryMsg::Pair {};

    let res = query(&deps, msg).unwrap();
    let _value = match res {
        QueryAnswer::Pair(pair) => pair,
        other => panic!("unexpected answer: {:?}", other),
    };
}

#[test]
fn init_persists_resolved_canonical_record() {
    let mut deps = mock_dependencies(&[("tokena", 1), ("tokenb", 2), ("registry", 9)]);
    let msg = PairInitMsg {
        assets_meta: [token("tokena"), token("tokenb")],
    };
    init(&mut deps, mock_env("registry"), msg).unwrap();

    let record = query_pair(&deps).unwrap();
    assert_eq!(record.id, concat(&canon(1), &canon(2)));
    assert_eq!(record.assets[0].as_bytes(), canon(1).as_slice());
    assert_eq!(record.assets[1].as_bytes(), canon(2).as_slice());
    assert_eq!(record.contract_addr, canon(9));
}

#[test]
fn query_before_init_is_uninitialized() {
    let deps = mock_dependencies(&[]);
    assert_eq!(query_pair(&deps).unwrap_err(), ContractError::Uninitialized);
}

#[test]
fn init_resolution_failure_persists_nothing() {
    let mut deps = mock_dependencies(&[("tokena", 1), ("registry", 9)]);
    let msg = PairInitMsg {
        assets_meta: [token("tokena"), token("unknown")],
    };
    let res = init(&mut deps, mock_env("registry"), msg);
    assert_eq!(res.unwrap_err(), ContractError::Resolution);
    assert_eq!(query_pair(&deps).unwrap_err(), ContractError::Uninitialized);

    // An unresolvable creator aborts in the same way.
    let msg = PairInitMsg {
        assets_meta: [token("tokena"), token("tokena")],
    };
    let res = init(&mut deps, mock_env("stranger"), msg);
    assert_eq!(res.unwrap_err(), ContractError::Resolution);
    assert_eq!(query_pair(&deps).unwrap_err(), ContractError::Uninitialized);
}

#[test]
fn query_pool_is_a_placeholder() {
    let deps = mock_dependencies(&[]);
    let res = query(&deps, QueryMsg::Pool {}).unwrap();
    match res {
        QueryAnswer::Pool(s) => assert_eq!(s, "test"),
        other => panic!("unexpected answer: {:?}", other),
    }
    assert_eq!(query_pool(&deps).unwrap(), "test");
}

#[test]
fn handlers_do_not_mutate_state() {
    let mut deps = mock_dependencies(&[("tokena", 1), ("tokenb", 2), ("registry", 9)]);

    // Liquidity needs an initialized record.
    let res = try_add_liquidity(
        &mut deps,
        mock_env("registry"),
        [token("tokena"), token("tokenb")],
        None,
    );
    assert_eq!(res.unwrap_err(), ContractError::Uninitialized);

    let msg = PairInitMsg {
        assets_meta: [token("tokena"), token("tokenb")],
    };
    init(&mut deps, mock_env("registry"), msg).unwrap();

    let res = handle(
        &mut deps,
        mock_env("registry"),
        HandleMsg::AddLiquidity {
            assets_meta: [token("tokena"), token("tokenb")],
            receiver: None,
        },
    )
    .unwrap();
    assert!(res.messages.is_empty() && res.log.is_empty() && res.data.is_none());

    let res = try_add_liquidity(
        &mut deps,
        mock_env("registry"),
        [token("tokena"), token("tokenb")],
        None,
    )
    .unwrap();
    assert!(res.messages.is_empty() && res.log.is_empty() && res.data.is_none());

    let record = query_pair(&deps).unwrap();
    assert_eq!(record.id, concat(&canon(1), &canon(2)));
}
