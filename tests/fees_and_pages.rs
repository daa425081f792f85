use cosmos_grpc_client::fee::derive_fee;
use cosmos_grpc_client::pagination::ContractPager;
use cosmos_grpc_client::wallet::Wallet;
use cosmos_grpc_client::{BroadcastMode, ClientError, Decimal, IntoU64};

fn dec(atomics: u128) -> Decimal {
    Decimal::raw(atomics)
}

#[test]
fn fee_boundary_example() {
    let fee = derive_fee(100000, dec(15_000_000_000_000_000), dec(2_000_000_000_000_000_000), "uluna").unwrap();
    assert_eq!(fee.amount.len(), 1);
    assert_eq!(fee.amount[0].denom, "uluna");
    assert_eq!(fee.amount[0].amount, 3001);
    assert_eq!(fee.gas_limit, 199999);
}

#[test]
fn fee_rounds_products_down() {
    // 0.333... * 1.5 = 0.4999...; times 7 gas = 3.49.. -> 3, plus one.
    let fee = derive_fee(7, dec(333_333_333_333_333_333), dec(1_500_000_000_000_000_000), "inj").unwrap();
    assert_eq!(fee.amount[0].amount, 4);
    // floor(7 * 1.5) - 1 = 9
    assert_eq!(fee.gas_limit, 9);
    let fee = derive_fee(100000, dec(700_000_000_000_000_000_000_000_000), dec(1_500_000_000_000_000_000), "inj").unwrap();
    assert_eq!(fee.amount[0].amount, 105_000_000_000_001);
    assert_eq!(fee.gas_limit, 149999);
}

#[test]
fn fee_is_above_the_exact_product() {
    // 1e-18 * 0.5 * 1e19 = 5 exactly: rounding the price first would give 1.
    let fee = derive_fee(10_000_000_000_000_000_000, dec(1), dec(500_000_000_000_000_000), "inj").unwrap();
    assert_eq!(fee.amount[0].amount, 6);
    // 0.000000000000000003 * 0.5 * 3 = 4.5e-18: rounds down to 0, plus one.
    let fee = derive_fee(3, dec(3), dec(500_000_000_000_000_000), "inj").unwrap();
    assert_eq!(fee.amount[0].amount, 1);
}

#[test]
fn fee_errors() {
    assert_eq!(
        derive_fee(100000, dec(1), dec(1), "u luna"),
        Err(ClientError::InvalidDenom)
    );
    assert_eq!(
        derive_fee(0, dec(15_000_000_000_000_000), dec(2_000_000_000_000_000_000), "uluna"),
        Err(ClientError::FeeOutOfRange)
    );
    assert_eq!(
        derive_fee(100, dec(u128::MAX), dec(u128::MAX), "uluna"),
        Err(ClientError::FeeOutOfRange)
    );
    assert_eq!(
        derive_fee(u64::MAX, dec(1_000_000_000_000_000_000), dec(4_000_000_000_000_000_000), "uluna"),
        Err(ClientError::FeeOutOfRange)
    );
    assert!(derive_fee(5, dec(1), dec(1_000_000_000_000_000_000), "ibc/ABC123").is_ok());
}

#[test]
fn wallet_fee_needs_gas_info() {
    let w = Wallet::random(
        "pisco-1".to_string(),
        "terra".to_string(),
        330,
        dec(15_000_000_000_000_000),
        dec(2_000_000_000_000_000_000),
        "uluna".to_string(),
    )
    .unwrap();
    assert_eq!(w.fee_from_simulation(None), Err(ClientError::NoGasEstimate));
    assert_eq!(w.fee_from_simulation(Some(100000)).unwrap().gas_limit, 199999);
}

#[test]
fn decimal_products() {
    let a = dec(1_500_000_000_000_000_000);
    let b = dec(2_000_000_000_000_000_000);
    assert_eq!(a.checked_mul(&b), Some(dec(3_000_000_000_000_000_000)));
    assert_eq!(dec(u128::MAX).checked_mul(&b), None);
    assert_eq!(Decimal::one().atomics, 1_000_000_000_000_000_000);
    assert_eq!(cosmos_grpc_client::math::mul_floor(3, a), Some(4));
    assert_eq!(cosmos_grpc_client::math::mul_floor(u128::MAX, b), None);
}

#[test]
fn narrowing_to_u64() {
    assert_eq!(5u128.as_u64(), Some(5));
    assert_eq!((u64::MAX as u128).as_u64(), Some(u64::MAX));
    assert_eq!((u64::MAX as u128 + 1).as_u64(), None);
}

#[test]
fn broadcast_mode_codes() {
    assert_eq!(BroadcastMode::Block.repr(), 1);
    assert_eq!(BroadcastMode::Sync.repr(), 2);
    assert_eq!(BroadcastMode::Async.repr(), 3);
    assert_eq!(BroadcastMode::from_repr(2), Some(BroadcastMode::Sync));
    assert_eq!(BroadcastMode::from_repr(0), None);
}

#[test]
fn pagination_stops_at_empty_key() {
    let pages: Vec<(Vec<String>, Option<Vec<u8>>)> = vec![
        (vec!["a".to_string(), "b".to_string()], Some(vec![1])),
        (vec!["c".to_string()], Some(vec![2, 2])),
        (vec!["d".to_string(), "e".to_string()], Some(vec![])),
        (vec!["never".to_string()], None),
    ];
    let mut pager = ContractPager::new(71);
    let mut calls = 0;
    let mut keys = vec![];
    while let Some(req) = pager.next_request() {
        assert_eq!(req.code_id, 71);
        keys.push(req.key.clone());
        let (items, next) = pages[calls].clone();
        calls += 1;
        pager.absorb(items, next);
    }
    assert_eq!(calls, 3);
    assert_eq!(pager.pages, 3);
    assert_eq!(keys, vec![None, Some(vec![1]), Some(vec![2, 2])]);
    assert_eq!(pager.into_contracts(), vec!["a", "b", "c", "d", "e"]);
}

#[test]
fn pagination_stops_without_pagination_field() {
    let mut pager = ContractPager::new(5);
    let req = pager.next_request().unwrap();
    assert_eq!(req.key, None);
    pager.absorb(vec!["x".to_string()], None);
    assert!(pager.next_request().is_none());
    assert_eq!(pager.into_contracts(), vec!["x"]);
}
