use price_relay::calls::OracleQuery;
use price_relay::proxy::{StdProxy, SINGLE_CALL_GAS};
use price_relay::ContractError;

fn alice() -> String {
    "alice.near".to_string()
}

fn bob() -> String {
    "bob.near".to_string()
}

fn store_a() -> String {
    "ref_basic.near".to_string()
}

fn store_b() -> String {
    "ref_basic2.near".to_string()
}

#[test]
fn new_proxy_points_at_ref_and_is_owned_by_signer() {
    let proxy = StdProxy::new(store_a(), alice(), false).unwrap();
    assert_eq!(proxy.get_ref(), store_a());
    assert_eq!(proxy.get_owner(), alice());
}

#[test]
fn new_proxy_refuses_reinitialization() {
    let r = StdProxy::new(store_a(), alice(), true);
    assert!(matches!(r, Err(ContractError::AlreadyInitialized)));
}

#[test]
fn set_ref_is_owner_gated() {
    let mut proxy = StdProxy::new(store_a(), alice(), false).unwrap();
    assert_eq!(proxy.set_ref(store_b(), bob()), Err(ContractError::NotAnOwner));
    assert_eq!(proxy.get_ref(), store_a());
    proxy.set_ref(store_b(), alice()).unwrap();
    assert_eq!(proxy.get_ref(), store_b());
}

#[test]
fn proxy_transfer_ownership_gates_and_takes_effect() {
    let mut proxy = StdProxy::new(store_a(), alice(), false).unwrap();
    assert_eq!(
        proxy.transfer_ownership(bob(), bob()),
        Err(ContractError::NotAnOwner)
    );
    proxy.transfer_ownership(bob(), alice()).unwrap();
    assert_eq!(proxy.get_owner(), bob());
    proxy.set_ref(store_b(), bob()).unwrap();
    assert_eq!(proxy.get_ref(), store_b());
}

#[test]
fn forwarding_targets_the_configured_store() {
    let mut proxy = StdProxy::new(store_a(), alice(), false).unwrap();
    let call = proxy.get_reference_data("BTC".to_string(), "USD".to_string());
    assert_eq!(call.target, store_a());
    assert_eq!(call.deposit, 0);
    assert_eq!(call.gas, SINGLE_CALL_GAS);
    match call.query {
        OracleQuery::Single { base, quote } => {
            assert_eq!(base, "BTC");
            assert_eq!(quote, "USD");
        }
        OracleQuery::Bulk { .. } => panic!("expected a single query"),
    }
    // After repointing, new queries go to the new store.
    proxy.set_ref(store_b(), alice()).unwrap();
    let call = proxy.get_reference_data_bulk(
        vec!["BTC".to_string()],
        vec!["USD".to_string()],
    );
    assert_eq!(call.target, store_b());
    assert_eq!(call.gas, SINGLE_CALL_GAS);
    match call.query {
        OracleQuery::Bulk { bases, quotes } => {
            assert_eq!(bases, vec!["BTC".to_string()]);
            assert_eq!(quotes, vec!["USD".to_string()]);
        }
        OracleQuery::Single { .. } => panic!("expected a bulk query"),
    }
}
