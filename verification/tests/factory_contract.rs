//! End-to-end tests of the registry contract: initialization, the pair
//! creation protocol, and the pair lookup.

use pair_registry::common::api::AddressApi;
use pair_registry::common::error::ContractError;
use pair_registry::common::host::{ContractInfo, CosmosMsg, Env, Extern, MessageInfo, WasmMsg};
use pair_registry::common::pair::AssetMeta;
use pair_registry::factory::contract::{handle, init, query, query_config, query_pair};
use pair_registry::factory::msg::{HandleMsg, InitMsg, QueryAnswer, QueryMsg};
use pair_registry::factory::state::FactoryStorage;

const MOCK_CONTRACT_ADDR: &str = "cosmos2contract";

fn mock_env(sender: &str) -> Env {
    Env {
        message: MessageInfo {
            sender: sender.to_string(),
        },
        contract: ContractInfo {
            address: MOCK_CONTRACT_ADDR.to_string(),
        },
        contract_code_hash: "testhash".to_string(),
    }
}

fn canon(tag: u8) -> Vec<u8> {
    vec![tag; 20]
}

fn mock_dependencies(entries: &[(&str, u8)]) -> Extern<FactoryStorage> {
    let mut api = AddressApi::new(20);
    for (human, tag) in entries {
        assert!(api.register(human.to_string(), canon(*tag)));
    }
    Extern {
        storage: FactoryStorage::new(),
        api,
    }
}

fn token(addr: &str) -> AssetMeta {
    AssetMeta::Token {
        contract_addr: addr.to_string(),
    }
}

#[test]
fn proper_initialization() {
    let mut deps = mock_dependencies(&[]);

    let msg = InitMsg {
        pair_code_id: 23123123,
    };
    let env = mock_env("creator");

    let _res = init(&mut deps, env, msg).unwrap();
}

#[test]
fn create_pair() {
    let mut deps = mock_dependencies(&[(MOCK_CONTRACT_ADDR, 7)]);

    let msg = InitMsg {
        pair_code_id: 23123123,
    };
    let env = mock_env("creator");

    let _res = init(&mut deps, env.clone(), msg).unwrap();
    let assets_meta = [token(MOCK_CONTRACT_ADDR), token(MOCK_CONTRACT_ADDR)];
    let msg = HandleMsg::CreatePair {
        assets_meta: [token(MOCK_CONTRACT_ADDR), token(MOCK_CONTRACT_ADDR)],
    };

    let _res = handle(&mut deps, env, msg).unwrap();

    let msg = QueryMsg::Pair {
        assets_meta: [token(MOCK_CONTRACT_ADDR), token(MOCK_CONTRACT_ADDR)],
    };

    let res = query(&deps, msg).unwrap();
    let value = match res {
        QueryAnswer::Pair(pair) => pair,
        other => panic!("unexpected answer: {:?}", other),
    };
    println!("{:?}", value);
    assert_eq!(assets_meta[0], value.assets[0]);
}

#[test]
fn create_pair_records_identity_in_caller_order() {
    let mut deps = mock_dependencies(&[("tokena", 1), ("tokenb", 2)]);
    init(&mut deps, mock_env("creator"), InitMsg { pair_code_id: 1 }).unwrap();

    let res = handle(
        &mut deps,
        mock_env("creator"),
        HandleMsg::CreatePair {
            assets_meta: [token("tokena"), token("tokenb")],
        },
    )
    .unwrap();

    let record = query_pair(&deps, [token("tokena"), token("tokenb")]).unwrap();
    let mut expected = canon(1);
    expected.extend_from_slice(&canon(2));
    assert_eq!(record.id, expected);
    assert_eq!(record.contract_addr, MOCK_CONTRACT_ADDR);

    // Exactly one instantiation request, addressed by the configured
    // template and labeled after the two assets.
    assert_eq!(res.messages.len(), 1);
    let CosmosMsg::Wasm(WasmMsg::Instantiate {
        code_id,
        callback_code_hash,
        msg,
        label,
    }) = &res.messages[0];
    assert_eq!(*code_id, 1);
    assert_eq!(callback_code_hash.as_str(), "testhash");
    assert_eq!(msg.assets_meta[0], token("tokena"));
    assert_eq!(msg.assets_meta[1], token("tokenb"));
    assert_eq!(label.as_str(), "pair-tokena-tokenb");

    assert_eq!(res.log.len(), 2);
    assert_eq!(res.log[0].key, "action");
    assert_eq!(res.log[0].value, "create_pair");
    assert_eq!(res.log[1].key, "pair");
    assert_eq!(res.log[1].value, "tokena-tokenb");
    assert!(res.data.is_none());
}

#[test]
fn create_pair_order_independent_lookup() {
    let mut deps = mock_dependencies(&[("tokena", 1), ("tokenb", 2)]);
    init(&mut deps, mock_env("creator"), InitMsg { pair_code_id: 1 }).unwrap();
    handle(
        &mut deps,
        mock_env("creator"),
        HandleMsg::CreatePair {
            assets_meta: [token("tokena"), token("tokenb")],
        },
    )
    .unwrap();

    let forward = query_pair(&deps, [token("tokena"), token("tokenb")]).unwrap();
    let reversed = query_pair(&deps, [token("tokenb"), token("tokena")]).unwrap();
    assert_eq!(forward.id, reversed.id);
    assert_eq!(forward.assets[0], reversed.assets[0]);
    assert_eq!(forward.assets[1], reversed.assets[1]);
    assert_eq!(forward.contract_addr, reversed.contract_addr);
}

#[test]
fn create_pair_rejects_duplicates_in_any_order() {
    let mut deps = mock_dependencies(&[("tokena", 1), ("tokenb", 2)]);
    init(&mut deps, mock_env("creator"), InitMsg { pair_code_id: 1 }).unwrap();
    handle(
        &mut deps,
        mock_env("creator"),
        HandleMsg::CreatePair {
            assets_meta: [token("tokena"), token("tokenb")],
        },
    )
    .unwrap();

    let same_order = handle(
        &mut deps,
        mock_env("creator"),
        HandleMsg::CreatePair {
            assets_meta: [token("tokena"), token("tokenb")],
        },
    );
    assert_eq!(same_order.unwrap_err(), ContractError::DuplicatePair);

    let reversed = handle(
        &mut deps,
        mock_env("creator"),
        HandleMsg::CreatePair {
            assets_meta: [token("tokenb"), token("tokena")],
        },
    );
    assert_eq!(reversed.unwrap_err(), ContractError::DuplicatePair);

    assert_eq!(deps.storage.pairs.len(), 1);
}

#[test]
fn query_pair_on_empty_registry_is_not_found() {
    let mut deps = mock_dependencies(&[("tokena", 1), ("tokenb", 2)]);
    init(&mut deps, mock_env("creator"), InitMsg { pair_code_id: 1 }).unwrap();

    let res = query_pair(&deps, [token("tokena"), token("tokenb")]);
    assert_eq!(res.unwrap_err(), ContractError::NotFound);
}

#[test]
fn create_pair_resolution_failure_leaves_registry_unchanged() {
    let mut deps = mock_dependencies(&[("tokena", 1)]);
    init(&mut deps, mock_env("creator"), InitMsg { pair_code_id: 1 }).unwrap();

    let res = handle(
        &mut deps,
        mock_env("creator"),
        HandleMsg::CreatePair {
            assets_meta: [token("tokena"), token("unknown")],
        },
    );
    assert_eq!(res.unwrap_err(), ContractError::Resolution);
    assert_eq!(deps.storage.pairs.len(), 0);

    let res = handle(
        &mut deps,
        mock_env("creator"),
        HandleMsg::CreatePair {
            assets_meta: [token("unknown"), token("tokena")],
        },
    );
    assert_eq!(res.unwrap_err(), ContractError::Resolution);
    assert_eq!(deps.storage.pairs.len(), 0);
}

#[test]
fn two_distinct_pairs_coexist() {
    let mut deps = mock_dependencies(&[("tokena", 1), ("tokenb", 2), ("tokenc", 3), ("tokend", 4)]);
    init(&mut deps, mock_env("creator"), InitMsg { pair_code_id: 1 }).unwrap();
    handle(
        &mut deps,
        mock_env("creator"),
        HandleMsg::CreatePair {
            assets_meta: [token("tokena"), token("tokenb")],
        },
    )
    .unwrap();
    handle(
        &mut deps,
        mock_env("creator"),
        HandleMsg::CreatePair {
            assets_meta: [token("tokenc"), token("tokend")],
        },
    )
    .unwrap();
    assert_eq!(deps.storage.pairs.len(), 2);

    let record = query_pair(&deps, [token("tokenb"), token("tokena")]).unwrap();
    assert_eq!(record.assets[0], token("tokena"));
    assert_eq!(record.assets[1], token("tokenb"));

    let missing = query_pair(&deps, [token("tokena"), token("tokenc")]);
    assert_eq!(missing.unwrap_err(), ContractError::NotFound);
}

#[test]
fn create_pair_before_init_is_uninitialized() {
    let mut deps = mock_dependencies(&[("tokena", 1), ("tokenb", 2)]);

    let res = handle(
        &mut deps,
        mock_env("creator"),
        HandleMsg::CreatePair {
            assets_meta: [token("tokena"), token("tokenb")],
        },
    );
    assert_eq!(res.unwrap_err(), ContractError::Uninitialized);
}

#[test]
fn query_config_returns_saved_state() {
    let mut deps = mock_dependencies(&[]);
    assert_eq!(
        query_config(&deps).unwrap_err(),
        ContractError::Uninitialized
    );

    init(
        &mut deps,
        mock_env("creator"),
        InitMsg {
            pair_code_id: 23123123,
        },
    )
    .unwrap();

    let answer = query(&deps, QueryMsg::Config {}).unwrap();
    match answer {
        QueryAnswer::Config(state) => assert_eq!(state.pair_code_id, 23123123),
        other => panic!("unexpected answer: {:?}", other),
    }
}
