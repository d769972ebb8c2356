use price_feed::admin::{
    check_manager, instantiate, update_config, withdraw_unchecked, ConfigUpdate, InstantiateMsg,
};
use price_feed::msg::{query, QueryMsg, QueryResponse};
use price_feed::payment::validate_payment;
use price_feed::rates::{
    classify_symbol, query_rate, query_reference_data, query_reference_data_bulk, RateStore,
    Symbol,
};
use price_feed::request::{oracle_packet, request_from_calldata, try_request};
use price_feed::types::{Coin, Config, ContractError, Rate, ReferenceData};

fn coin(amount: u128, denom: &str) -> Coin {
    Coin::new(amount, denom.to_string())
}

fn sample_config() -> Config {
    instantiate(InstantiateMsg {
        client_id: "feed".to_string(),
        manager: "boss".to_string(),
        prices: vec![coin(100, "uband")],
        oracle_script_id: 360,
        ask_count: 16,
        min_count: 10,
        fee_limit: vec![coin(1000, "uband")],
        prepare_gas: 900_000,
        execute_gas: 4_000_000,
        minimum_sources: 3,
    })
}

fn no_update() -> ConfigUpdate {
    ConfigUpdate {
        client_id: None,
        manager: None,
        prices: None,
        oracle_script_id: None,
        ask_count: None,
        min_count: None,
        fee_limit: None,
        prepare_gas: None,
        execute_gas: None,
        minimum_sources: None,
    }
}

fn pair(a: &str, b: &str) -> (String, String) {
    (a.to_string(), b.to_string())
}

fn sample_store() -> RateStore {
    let mut store = RateStore::new();
    store.insert("BTC".to_string(), Rate::new(20_000_000_000_000, 1_700, 7));
    store.insert("ETH".to_string(), Rate::new(1_000_000_000_000, 1_800, 8));
    store.insert("ZERO".to_string(), Rate::new(0, 1_900, 9));
    store
}

#[test]
fn empty_prices_accept_no_payment() {
    assert_eq!(validate_payment(&[], &[coin(1_000, "uband")]), Err(ContractError::NoPaymentOption));
    assert_eq!(validate_payment(&[], &[]), Err(ContractError::NoPaymentOption));
}

#[test]
fn payment_in_a_priced_denom_is_accepted() {
    let prices = [coin(100, "uband"), coin(5, "uatom")];
    assert_eq!(validate_payment(&prices, &[coin(100, "uband")]), Ok(()));
    assert_eq!(validate_payment(&prices, &[coin(150, "uband")]), Ok(()));
    assert_eq!(validate_payment(&prices, &[coin(1, "uband"), coin(5, "uatom")]), Ok(()));
    assert_eq!(validate_payment(&prices, &[coin(9, "ujuno"), coin(7, "uatom")]), Ok(()));
}

#[test]
fn underpaid_or_unpriced_funds_are_refused() {
    let prices = [coin(100, "uband"), coin(5, "uatom")];
    assert_eq!(validate_payment(&prices, &[]), Err(ContractError::InsufficientPayment));
    assert_eq!(validate_payment(&prices, &[coin(99, "uband")]), Err(ContractError::InsufficientPayment));
    assert_eq!(validate_payment(&prices, &[coin(1_000, "ujuno")]), Err(ContractError::InsufficientPayment));
    // no splitting across denominations
    assert_eq!(
        validate_payment(&prices, &[coin(99, "uband"), coin(4, "uatom")]),
        Err(ContractError::InsufficientPayment)
    );
}

#[test]
fn later_price_of_a_denom_wins() {
    let prices = [coin(100, "uband"), coin(10, "uband")];
    assert_eq!(validate_payment(&prices, &[coin(10, "uband")]), Ok(()));
    let prices = [coin(10, "uband"), coin(100, "uband")];
    assert_eq!(validate_payment(&prices, &[coin(10, "uband")]), Err(ContractError::InsufficientPayment));
}

#[test]
fn usd_rate_is_synthetic() {
    let mut store = sample_store();
    let usd = Rate::new(1_000_000_000, u64::MAX, 0);
    assert_eq!(query_rate(&store, &"USD".to_string()), Ok(usd));
    store.insert("USD".to_string(), Rate::new(5, 5, 5));
    assert_eq!(query_rate(&store, &"USD".to_string()), Ok(usd));
    assert!(matches!(classify_symbol(&"USD".to_string()), Symbol::Usd));
    assert!(matches!(classify_symbol(&"usd".to_string()), Symbol::Stored(s) if s == "usd"));
}

#[test]
fn stored_rate_and_missing_rate() {
    let mut store = sample_store();
    assert_eq!(query_rate(&store, &"ETH".to_string()), Ok(Rate::new(1_000_000_000_000, 1_800, 8)));
    assert_eq!(
        query_rate(&store, &"DOGE".to_string()),
        Err(ContractError::NotFound { symbol: "DOGE".to_string() })
    );
    store.insert("ETH".to_string(), Rate::new(3, 4, 5));
    assert_eq!(query_rate(&store, &"ETH".to_string()), Ok(Rate::new(3, 4, 5)));
    assert_eq!(store.get(&"BTC".to_string()), Some(Rate::new(20_000_000_000_000, 1_700, 7)));
}

#[test]
fn reference_rate_of_two_stored_symbols() {
    let store = sample_store();
    let r = query_reference_data(&store, &pair("BTC", "ETH")).unwrap();
    assert_eq!(r, ReferenceData::new(20_000_000_000_000_000_000, 1_700, 1_800));
    let r = query_reference_data(&store, &pair("ETH", "BTC")).unwrap();
    assert_eq!(r.rate, 50_000_000_000_000_000);
}

#[test]
fn reference_rate_truncates() {
    let mut store = RateStore::new();
    store.insert("A".to_string(), Rate::new(1, 1, 1));
    store.insert("B".to_string(), Rate::new(3, 2, 2));
    let r = query_reference_data(&store, &pair("A", "B")).unwrap();
    assert_eq!(r.rate, 333_333_333_333_333_333);
}

#[test]
fn reference_rate_against_usd() {
    let store = sample_store();
    let r = query_reference_data(&store, &pair("ETH", "USD")).unwrap();
    assert_eq!(r, ReferenceData::new(1_000_000_000_000_000_000_000, 1_800, u64::MAX));
    let r = query_reference_data(&store, &pair("USD", "USD")).unwrap();
    assert_eq!(r.rate, 1_000_000_000_000_000_000);
}

#[test]
fn reference_rate_of_largest_rate_does_not_overflow() {
    let mut store = RateStore::new();
    store.insert("MAX".to_string(), Rate::new(u64::MAX, 0, 0));
    store.insert("ONE".to_string(), Rate::new(1, 0, 0));
    let r = query_reference_data(&store, &pair("MAX", "ONE")).unwrap();
    assert_eq!(r.rate, u64::MAX as u128 * 1_000_000_000_000_000_000);
}

#[test]
fn reference_rate_failures() {
    let store = sample_store();
    assert_eq!(query_reference_data(&store, &pair("BTC", "ZERO")), Err(ContractError::ArithmeticFailure));
    assert_eq!(
        query_reference_data(&store, &pair("DOGE", "ZERO")),
        Err(ContractError::NotFound { symbol: "DOGE".to_string() })
    );
    assert_eq!(
        query_reference_data(&store, &pair("BTC", "DOGE")),
        Err(ContractError::NotFound { symbol: "DOGE".to_string() })
    );
    assert_eq!(query_reference_data(&store, &pair("ZERO", "BTC")).unwrap().rate, 0);
}

#[test]
fn bulk_keeps_input_order() {
    let store = sample_store();
    let all = query_reference_data_bulk(&store, &[pair("BTC", "ETH"), pair("ETH", "USD")]).unwrap();
    assert_eq!(all.len(), 2);
    assert_eq!(all[0], query_reference_data(&store, &pair("BTC", "ETH")).unwrap());
    assert_eq!(all[1], query_reference_data(&store, &pair("ETH", "USD")).unwrap());
    assert_eq!(query_reference_data_bulk(&store, &[]), Ok(vec![]));
}

#[test]
fn bulk_is_all_or_nothing() {
    let store = sample_store();
    assert_eq!(
        query_reference_data_bulk(&store, &[pair("BTC", "DOGE"), pair("ETH", "USD")]),
        Err(ContractError::NotFound { symbol: "DOGE".to_string() })
    );
    assert_eq!(
        query_reference_data_bulk(&store, &[pair("ETH", "USD"), pair("BTC", "ZERO"), pair("X", "Y")]),
        Err(ContractError::ArithmeticFailure)
    );
}

#[test]
fn query_dispatches_each_variant() {
    let store = sample_store();
    let r = query(&store, &QueryMsg::GetRate { symbol: "BTC".to_string() }).unwrap();
    assert!(matches!(r, QueryResponse::Rate(x) if x == Rate::new(20_000_000_000_000, 1_700, 7)));
    let r = query(&store, &QueryMsg::GetReferenceData { symbol_pair: pair("ETH", "USD") }).unwrap();
    assert!(matches!(r, QueryResponse::ReferenceData(d) if d.rate == 1_000_000_000_000_000_000_000));
    let r = query(&store, &QueryMsg::GetReferenceDataBulk { symbol_pairs: vec![pair("USD", "ETH")] }).unwrap();
    assert!(matches!(r, QueryResponse::ReferenceDataBulk(v) if v.len() == 1 && v[0].rate == 1_000_000_000_000_000));
    let r = query(&store, &QueryMsg::GetRate { symbol: "DOGE".to_string() });
    assert!(matches!(r, Err(ContractError::NotFound { .. })));
}

#[test]
fn instantiate_stores_the_whole_message() {
    let c = sample_config();
    assert_eq!(c.client_id, "feed");
    assert_eq!(c.manager, "boss");
    assert_eq!(c.prices.len(), 1);
    assert_eq!(c.oracle_script_id, 360);
    assert_eq!(c.ask_count, 16);
    assert_eq!(c.min_count, 10);
    assert_eq!(c.fee_limit[0].amount, 1000);
    assert_eq!(c.prepare_gas, 900_000);
    assert_eq!(c.execute_gas, 4_000_000);
    assert_eq!(c.minimum_sources, 3);
}

#[test]
fn only_manager_updates_config() {
    let mut c = sample_config();
    let mut u = no_update();
    u.ask_count = Some(1);
    assert_eq!(update_config(&mut c, &"mallory".to_string(), u), Err(ContractError::Unauthorized));
    assert_eq!(c.ask_count, 16);
    assert_eq!(check_manager(&c, &"mallory".to_string()), Err(ContractError::Unauthorized));
    assert_eq!(check_manager(&c, &"boss".to_string()), Ok(()));
}

#[test]
fn manager_only_update_keeps_other_fields() {
    let mut c = sample_config();
    let mut u = no_update();
    u.manager = Some("heir".to_string());
    assert_eq!(update_config(&mut c, &"boss".to_string(), u), Ok(()));
    assert_eq!(c.manager, "heir");
    assert_eq!(c.client_id, "feed");
    assert_eq!(c.prices[0].amount, 100);
    assert_eq!(c.oracle_script_id, 360);
    assert_eq!(c.ask_count, 16);
    assert_eq!(c.min_count, 10);
    assert_eq!(c.prepare_gas, 900_000);
    assert_eq!(c.execute_gas, 4_000_000);
    assert_eq!(c.minimum_sources, 3);
    // the old manager lost its rights
    assert_eq!(update_config(&mut c, &"boss".to_string(), no_update()), Err(ContractError::Unauthorized));
}

#[test]
fn update_can_close_the_feed() {
    let mut c = sample_config();
    let mut u = no_update();
    u.prices = Some(vec![]);
    u.minimum_sources = Some(9);
    u.fee_limit = Some(vec![coin(1, "uatom")]);
    assert_eq!(update_config(&mut c, &"boss".to_string(), u), Ok(()));
    assert!(c.prices.is_empty());
    assert_eq!(c.minimum_sources, 9);
    assert_eq!(c.fee_limit[0].denom, "uatom");
    assert_eq!(
        try_request("channel-0".to_string(), c, &[coin(1_000, "uband")], vec!["BTC".to_string()], 0).unwrap_err(),
        ContractError::NoPaymentOption
    );
}

#[test]
fn withdraw_given_amount_or_whole_balance() {
    let t = withdraw_unchecked("execute_withdraw".to_string(), "uband".to_string(), Some(7), "addr".to_string(), None);
    assert_eq!(t.coin.amount, 7);
    assert_eq!(t.coin.denom, "uband");
    assert_eq!(t.to_address, "addr");
    assert_eq!(t.action, "execute_withdraw");
    let t = withdraw_unchecked("w".to_string(), "uband".to_string(), Some(7), "addr".to_string(), Some(500));
    assert_eq!(t.coin.amount, 7);
    let t = withdraw_unchecked("w".to_string(), "uband".to_string(), None, "addr".to_string(), Some(500));
    assert_eq!(t.coin.amount, 500);
    let t = withdraw_unchecked("w".to_string(), "uband".to_string(), Some(0), "addr".to_string(), None);
    assert_eq!(t.coin.amount, 0);
}

#[test]
fn paid_request_emits_one_packet() {
    let now: u64 = 1_700_000_000_000_000_000;
    let m = try_request(
        "channel-7".to_string(),
        sample_config(),
        &[coin(150, "uband")],
        vec!["BTC".to_string(), "ETH".to_string()],
        now,
    )
    .unwrap();
    assert_eq!(m.channel_id, "channel-7");
    assert_eq!(m.timeout_nanos, now + 60_000_000_000);
    assert_eq!(m.packet.client_id, "feed");
    assert_eq!(m.packet.oracle_script_id, 360);
    assert_eq!(m.packet.ask_count, 16);
    assert_eq!(m.packet.min_count, 10);
    assert_eq!(m.packet.prepare_gas, 900_000);
    assert_eq!(m.packet.execute_gas, 4_000_000);
    assert_eq!(m.packet.fee_limit[0].amount, 1000);
    let mut expected: Vec<u8> = vec![0, 0, 0, 2, 0, 0, 0, 3];
    expected.extend_from_slice(b"BTC");
    expected.extend_from_slice(&[0, 0, 0, 3]);
    expected.extend_from_slice(b"ETH");
    expected.push(3);
    assert_eq!(m.packet.calldata, expected);
}

#[test]
fn unpaid_request_is_refused() {
    let r = try_request("channel-7".to_string(), sample_config(), &[coin(99, "uband")], vec!["BTC".to_string()], 0);
    assert_eq!(r.unwrap_err(), ContractError::InsufficientPayment);
    let r = try_request("channel-7".to_string(), sample_config(), &[coin(500, "uatom")], vec!["BTC".to_string()], 0);
    assert_eq!(r.unwrap_err(), ContractError::InsufficientPayment);
}

#[test]
fn empty_symbol_list_is_encoded() {
    let m = try_request("c".to_string(), sample_config(), &[coin(100, "uband")], vec![], 5).unwrap();
    assert_eq!(m.packet.calldata, vec![0, 0, 0, 0, 3]);
    assert_eq!(m.timeout_nanos, 60_000_000_005);
}

#[test]
fn request_from_calldata_maps_both_outcomes() {
    let m = request_from_calldata("c".to_string(), sample_config(), Ok(vec![1, 2]), 10).unwrap();
    assert_eq!(m.packet.calldata, vec![1, 2]);
    assert_eq!(m.timeout_nanos, 60_000_000_010);
    let e = request_from_calldata("c".to_string(), sample_config(), Err("bad".to_string()), 10).unwrap_err();
    assert_eq!(e, ContractError::EncodingFailure { msg: "bad".to_string() });
    let p = oracle_packet(sample_config(), vec![9]);
    assert_eq!(p.calldata, vec![9]);
    assert_eq!(p.client_id, "feed");
}
