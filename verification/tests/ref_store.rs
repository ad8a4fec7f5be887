use price_relay::rate_math::{cross_rate, E9, MAX_SAFE_RATE};
use price_relay::ref_store::StdReferenceBasic;
use price_relay::ContractError;

fn alice() -> String {
    "alice.near".to_string()
}

fn bob() -> String {
    "bob.near".to_string()
}

fn store_with(symbols: Vec<&str>, rates: Vec<u128>, times: Vec<u64>, ids: Vec<u64>) -> StdReferenceBasic {
    let mut store = StdReferenceBasic::new(alice(), false).unwrap();
    let symbols: Vec<String> = symbols.into_iter().map(|s| s.to_string()).collect();
    store.relay(symbols, rates, times, ids, alice()).unwrap();
    store
}

#[test]
fn new_store_is_empty_and_owned_by_signer() {
    let store = StdReferenceBasic::new(alice(), false).unwrap();
    assert_eq!(store.get_owner(), alice());
    assert_eq!(store.get_refs("BTC".to_string(), 7), None);
}

#[test]
fn new_store_refuses_reinitialization() {
    let r = StdReferenceBasic::new(alice(), true);
    assert!(matches!(r, Err(ContractError::AlreadyInitialized)));
}

#[test]
fn usd_is_synthetic() {
    let store = StdReferenceBasic::new(alice(), false).unwrap();
    assert_eq!(store.get_refs("USD".to_string(), 42), Some((E9, 42, 0)));
}

#[test]
fn relay_stores_records_in_order() {
    let store = store_with(
        vec!["BTC", "ETH", "BTC"],
        vec![1_000, 2_000, 3_000],
        vec![10, 20, 30],
        vec![1, 2, 3],
    );
    // The later BTC record overwrites the earlier one.
    assert_eq!(store.get_refs("BTC".to_string(), 0), Some((3_000, 30, 3)));
    assert_eq!(store.get_refs("ETH".to_string(), 0), Some((2_000, 20, 2)));
}

#[test]
fn relay_refuses_misaligned_vectors_without_state_change() {
    let mut store = store_with(vec!["BTC"], vec![1_000], vec![10], vec![1]);
    let r = store.relay(
        vec!["ETH".to_string()],
        vec![5, 6],
        vec![1],
        vec![1],
        alice(),
    );
    assert_eq!(r, Err(ContractError::BadRatesLength));
    let r = store.relay(vec!["ETH".to_string()], vec![5], vec![1, 2], vec![1], alice());
    assert_eq!(r, Err(ContractError::BadResolveTimesLength));
    let r = store.relay(vec!["ETH".to_string()], vec![5], vec![1], vec![1, 2], alice());
    assert_eq!(r, Err(ContractError::BadRequestIdsLength));
    assert_eq!(store.get_refs("ETH".to_string(), 0), None);
    assert_eq!(store.get_refs("BTC".to_string(), 0), Some((1_000, 10, 1)));
}

#[test]
fn relay_refuses_non_owner_without_state_change() {
    let mut store = store_with(vec!["BTC"], vec![1_000], vec![10], vec![1]);
    let r = store.relay(vec!["BTC".to_string()], vec![9], vec![9], vec![9], bob());
    assert_eq!(r, Err(ContractError::NotAnOwner));
    assert_eq!(store.get_refs("BTC".to_string(), 0), Some((1_000, 10, 1)));
}

#[test]
fn transfer_ownership_gates_and_takes_effect_immediately() {
    let mut store = StdReferenceBasic::new(alice(), false).unwrap();
    assert_eq!(
        store.transfer_ownership(bob(), bob()),
        Err(ContractError::NotAnOwner)
    );
    assert_eq!(store.get_owner(), alice());
    store.transfer_ownership(bob(), alice()).unwrap();
    assert_eq!(store.get_owner(), bob());
    // The old owner is locked out at once; the new owner is in force.
    assert_eq!(
        store.transfer_ownership(alice(), alice()),
        Err(ContractError::NotAnOwner)
    );
    store.transfer_ownership(alice(), bob()).unwrap();
    assert_eq!(store.get_owner(), alice());
}

#[test]
fn cross_rate_is_exact() {
    // 2.0 base units over 0.5 quote units: 4.0, scaled by 1e18.
    assert_eq!(
        cross_rate(2_000_000_000, 500_000_000),
        4_000_000_000_000_000_000
    );
    // Truncation rounds toward zero.
    assert_eq!(cross_rate(1, 3_000_000_000_000_000_000), 0);
    // The largest safe base rate still computes.
    assert_eq!(cross_rate(MAX_SAFE_RATE, 1), MAX_SAFE_RATE * E9 * E9);
}

#[test]
fn reference_data_formula_for_two_relayed_symbols() {
    let store = store_with(
        vec!["BTC", "ETH"],
        vec![5_000_000_000_000, 2_000_000_000_000],
        vec![100, 200],
        vec![1, 2],
    );
    let r = store.get_reference_data("BTC".to_string(), "ETH".to_string(), 999);
    // 5000.0 / 2000.0 = 2.5, scaled by 1e18.
    assert_eq!(r, Some((2_500_000_000_000_000_000, 100, 200)));
}

#[test]
fn reference_data_against_usd() {
    let store = store_with(vec!["BTC"], vec![5_000_000_000_000], vec![100], vec![1]);
    let now = 777;
    let r = store.get_reference_data("BTC".to_string(), "USD".to_string(), now);
    assert_eq!(r, Some((5_000_000_000_000 * E9, 100, now)));
    let r = store.get_reference_data("USD".to_string(), "BTC".to_string(), now);
    assert_eq!(r, Some((E9 * E9 * E9 / 5_000_000_000_000, now, 100)));
    let r = store.get_reference_data("USD".to_string(), "USD".to_string(), now);
    assert_eq!(r, Some((E9 * E9, now, now)));
}

#[test]
fn reference_data_is_none_when_a_side_is_missing() {
    let store = store_with(vec!["BTC"], vec![1_000], vec![10], vec![1]);
    assert_eq!(
        store.get_reference_data("BTC".to_string(), "ETH".to_string(), 0),
        None
    );
    assert_eq!(
        store.get_reference_data("ETH".to_string(), "BTC".to_string(), 0),
        None
    );
    assert_eq!(
        store.get_reference_data("ETH".to_string(), "XRP".to_string(), 0),
        None
    );
}

#[test]
fn bulk_returns_all_pairs_when_all_present() {
    let store = store_with(
        vec!["BTC", "ETH"],
        vec![4_000_000_000, 2_000_000_000],
        vec![10, 20],
        vec![1, 2],
    );
    let r = store
        .get_reference_data_bulk(
            vec!["BTC".to_string(), "ETH".to_string()],
            vec!["ETH".to_string(), "USD".to_string()],
            5,
        )
        .unwrap();
    let v = r.unwrap();
    assert_eq!(v.len(), 2);
    assert_eq!(v[0], (2_000_000_000_000_000_000, 10, 20));
    assert_eq!(v[1], (2_000_000_000 * E9, 20, 5));
}

#[test]
fn bulk_collapses_to_none_if_any_pair_is_missing() {
    let store = store_with(vec!["BTC"], vec![4_000_000_000], vec![10], vec![1]);
    let r = store
        .get_reference_data_bulk(
            vec!["BTC".to_string(), "ETH".to_string()],
            vec!["USD".to_string(), "USD".to_string()],
            5,
        )
        .unwrap();
    assert_eq!(r, None);
}

#[test]
fn empty_batches_are_accepted() {
    let mut store = StdReferenceBasic::new(alice(), false).unwrap();
    store
        .relay(Vec::new(), Vec::new(), Vec::new(), Vec::new(), alice())
        .unwrap();
    let r = store.get_reference_data_bulk(Vec::new(), Vec::new(), 0).unwrap();
    assert_eq!(r, Some(Vec::new()));
}

#[test]
fn bulk_refuses_misaligned_lists() {
    let store = store_with(vec!["BTC"], vec![4_000_000_000], vec![10], vec![1]);
    let r = store.get_reference_data_bulk(
        vec!["BTC".to_string()],
        vec!["USD".to_string(), "USD".to_string()],
        5,
    );
    assert_eq!(r, Err(ContractError::BadInputLength));
}
