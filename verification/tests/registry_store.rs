//! Store-level tests of the registry's append-only log and scan order,
//! of identity derivation, and of the address-canonicalization model.

use pair_registry::common::api::AddressApi;
use pair_registry::common::error::ContractError;
use pair_registry::common::pair::{id_matches_bytes, AssetMeta, Pair};
use pair_registry::factory::state::{
    config, config_read, FactoryStorage, PairInfo, State, Token, TokenRaw,
};

fn canon(tag: u8) -> Vec<u8> {
    vec![tag; 20]
}

fn token(addr: &str) -> AssetMeta {
    AssetMeta::Token {
        contract_addr: addr.to_string(),
    }
}

fn record(id: Vec<u8>, a: &str, b: &str, owner: &str) -> Pair {
    Pair {
        id,
        assets: [token(a), token(b)],
        contract_addr: owner.to_string(),
    }
}

fn concat(a: &[u8], b: &[u8]) -> Vec<u8> {
    let mut out = a.to_vec();
    out.extend_from_slice(b);
    out
}

#[test]
fn append_then_find_by_identity() {
    let mut store = FactoryStorage::new();
    let id = concat(&canon(1), &canon(2));
    assert!(store.find_by_identity(&id).is_none());

    store.append(record(id.clone(), "tokena", "tokenb", "registry"));
    let found = store.find_by_identity(&id).expect("record should be found");
    assert_eq!(found.id, id);
    assert_eq!(found.assets[0], token("tokena"));

    // The identity is order-sensitive: the reversed concatenation is a
    // different identity and finds nothing.
    let reversed = concat(&canon(2), &canon(1));
    assert!(store.find_by_identity(&reversed).is_none());
}

#[test]
fn reverse_scan_returns_latest_match_first() {
    // Two records for the same unordered pair should be prevented by the
    // creation protocol, but the store itself is a plain append log; a
    // reverse scan must answer the most recently appended match.
    let mut store = FactoryStorage::new();
    store.append(record(
        concat(&canon(1), &canon(2)),
        "tokena",
        "tokenb",
        "registry-one",
    ));
    store.append(record(
        concat(&canon(2), &canon(1)),
        "tokenb",
        "tokena",
        "registry-two",
    ));

    let found = store
        .find_pair(&canon(1), &canon(2))
        .expect("a match should be found");
    assert_eq!(found.contract_addr, "registry-two");

    let found = store
        .find_pair(&canon(2), &canon(1))
        .expect("a match should be found");
    assert_eq!(found.contract_addr, "registry-two");
}

#[test]
fn find_pair_matches_either_order_of_identity() {
    let mut store = FactoryStorage::new();
    store.append(record(
        concat(&canon(1), &canon(2)),
        "tokena",
        "tokenb",
        "registry",
    ));

    assert!(store.find_pair(&canon(1), &canon(2)).is_some());
    assert!(store.find_pair(&canon(2), &canon(1)).is_some());
    assert!(store.find_pair(&canon(1), &canon(3)).is_none());
}

#[test]
fn config_roundtrip_and_uninitialized_read() {
    let mut store = FactoryStorage::new();
    assert_eq!(
        config_read(&store).unwrap_err(),
        ContractError::Uninitialized
    );

    config(&mut store, State { pair_code_id: 42 });
    assert_eq!(config_read(&store).unwrap(), State { pair_code_id: 42 });
}

#[test]
fn create_id_concatenates_in_supplied_order() {
    let raw = [
        TokenRaw {
            contract_addr: canon(1),
        },
        TokenRaw {
            contract_addr: canon(2),
        },
    ];
    assert_eq!(PairInfo::create_id(&raw), concat(&canon(1), &canon(2)));

    let reversed = [
        TokenRaw {
            contract_addr: canon(2),
        },
        TokenRaw {
            contract_addr: canon(1),
        },
    ];
    assert_eq!(PairInfo::create_id(&reversed), concat(&canon(2), &canon(1)));
    assert_ne!(PairInfo::create_id(&raw), PairInfo::create_id(&reversed));
}

#[test]
fn token_resolution_roundtrip() {
    let mut api = AddressApi::new(20);
    assert!(api.register("tokena".to_string(), canon(1)));

    let human = Token {
        contract_addr: "tokena".to_string(),
    };
    let raw = human.to_raw(&api).unwrap();
    assert_eq!(raw.as_bytes(), canon(1).as_slice());

    let missing = Token {
        contract_addr: "unknown".to_string(),
    };
    assert_eq!(missing.to_raw(&api).unwrap_err(), ContractError::Resolution);
}

#[test]
fn address_api_is_a_partial_bijection() {
    let mut api = AddressApi::new(20);
    assert!(api.register("tokena".to_string(), canon(1)));

    // Both directions resolve what was registered.
    assert_eq!(api.canonical_address(&"tokena".to_string()).unwrap(), canon(1));
    assert_eq!(api.human_address(&canon(1)).unwrap(), "tokena");

    // Unregistered forms fail with a resolution error.
    assert_eq!(
        api.canonical_address(&"unknown".to_string()).unwrap_err(),
        ContractError::Resolution
    );
    assert_eq!(
        api.human_address(&canon(9)).unwrap_err(),
        ContractError::Resolution
    );

    // Either side already registered, or a wrong width, is rejected.
    assert!(!api.register("tokena".to_string(), canon(2)));
    assert!(!api.register("tokenb".to_string(), canon(1)));
    assert!(!api.register("tokenb".to_string(), vec![2; 19]));
    assert!(api.register("tokenb".to_string(), canon(2)));
}

#[test]
fn id_matching_accepts_both_orders_only() {
    let ab = concat(&canon(1), &canon(2));
    let a = canon(1);
    let b = canon(2);
    let c = canon(3);
    assert!(id_matches_bytes(&ab, &a, &b));
    assert!(id_matches_bytes(&ab, &b, &a));
    assert!(!id_matches_bytes(&ab, &a, &c));
    assert!(!id_matches_bytes(&ab, &a, &a));
}
