use liquidity_pools_gateway_routers::axelar_evm::{
    get_axelar_encoded_msg, AxelarEVMRouter, ChainIdentifier, EncodeError, SendError,
};
use liquidity_pools_gateway_routers::mock::{
    AccountIdToLocation, CurrencyId, CurrencyIdToLocation, FindAuthorTruncated, FixedGasPrice,
    HrmpAvailableCalls, HrmpCall, IdentityAddressMapping, Junction, Location, MockHrmpEncoder,
    DummyAssetTransactor, DummyWeigher, MockPrecompileSet, RelayCall, TestSendXcm, Transactors,
    UtilityAvailableCalls, UtilityCall, Weight,
};
use liquidity_pools_gateway_routers::router::RecordingMechanism;

fn contract_address() -> [u8; 20] {
    let mut a = [0u8; 20];
    a[19] = 0x0a;
    a
}

#[test]
fn failed_send_dispatches_nothing() {
    let chain = ChainIdentifier::new(vec![0xFF, 0xFE]).unwrap();
    let mut router = AxelarEVMRouter::new(RecordingMechanism::new(), chain, contract_address());
    let r = router.do_send(vec![7u8; 32], vec![0xAA, 0xBB]);
    assert!(matches!(r, Err(SendError::Encoding(EncodeError::InvalidChainIdEncoding))));
    assert_eq!(router.router.sent_count(), 0);
}

#[test]
fn successful_send_dispatches_encoded_call() {
    let chain = ChainIdentifier::new(b"Moonbeam".to_vec()).unwrap();
    let mut router = AxelarEVMRouter::new(RecordingMechanism::new(), chain, contract_address());
    let sender = vec![7u8; 32];
    let msg = vec![0xAA, 0xBB];
    let r = router.do_send(sender.clone(), msg.clone());
    assert!(r.is_ok());
    assert_eq!(router.router.sent_count(), 1);
    let expected = get_axelar_encoded_msg(msg, b"Moonbeam".to_vec(), contract_address()).unwrap();
    assert_eq!(router.router.sent_payload(0), &expected);
    assert_eq!(router.router.sent_sender(0), &sender);
}

#[test]
fn do_init_dispatches_nothing() {
    let chain = ChainIdentifier::new(b"Moonbeam".to_vec()).unwrap();
    let mut router = AxelarEVMRouter::new(RecordingMechanism::new(), chain, contract_address());
    assert!(router.do_init().is_ok());
    assert_eq!(router.router.sent_count(), 0);
}

#[test]
fn fixed_gas_price_values() {
    let (price, weight) = FixedGasPrice::min_gas_price();
    assert_eq!(price, 1_000_000_000u128);
    assert_eq!(weight, Weight { ref_time: 7, proof_size: 0 });
}

#[test]
fn into_account_id_layout() {
    let mut address = [0u8; 20];
    for (i, b) in address.iter_mut().enumerate() {
        *b = i as u8;
    }
    let account = IdentityAddressMapping::into_account_id(address);
    assert_eq!(account.len(), 32);
    assert_eq!(&account[0..20], &address);
    assert_eq!(&account[20..28], &1u64.to_be_bytes());
    assert_eq!(&account[28..31], b"EVM");
    assert_eq!(account[31], 0);
}

#[test]
fn find_author_truncated_address() {
    let author = FindAuthorTruncated::find_author().unwrap();
    let mut expected = vec![0u8; 20];
    expected[0] = 0x12;
    expected[1] = 0x34;
    expected[2] = 0x50;
    assert_eq!(author, expected);
}

#[test]
fn precompile_set_answers() {
    let set = MockPrecompileSet;
    let mut one = [0u8; 20];
    one[19] = 1;
    let yes = set.is_precompile(&one, 10_000);
    assert!(yes.is_precompile);
    assert_eq!(yes.extra_cost, 0);
    let no = set.is_precompile(&[0u8; 20], 10_000);
    assert!(!no.is_precompile);
}

#[test]
fn transactors_default_and_destination() {
    let t: Transactors = Default::default();
    assert_eq!(t, Transactors::Relay);
    let dest = t.destination();
    assert_eq!(dest.parents, 1);
    assert!(dest.interior.is_empty());
}

#[test]
fn encode_call_as_derivative_bytes() {
    let t = Transactors::Relay;
    let out = t.encode_call(UtilityAvailableCalls::AsDerivative(5, vec![9, 8, 7]));
    assert_eq!(out, vec![0, 0, 5, 0, 9, 8, 7]);
    let wide = Transactors::Relay.encode_call(UtilityAvailableCalls::AsDerivative(0x0201, vec![]));
    assert_eq!(wide, vec![0, 0, 0x01, 0x02]);
}

#[test]
fn relay_call_encodings() {
    assert_eq!(RelayCall::Utility(UtilityCall::AsDerivative(1)).encode(), vec![0, 0, 1, 0]);
    assert_eq!(RelayCall::Hrmp(HrmpCall::Init()).encode(), vec![1, 0]);
    assert_eq!(RelayCall::Hrmp(HrmpCall::Accept()).encode(), vec![1, 1]);
    assert_eq!(RelayCall::Hrmp(HrmpCall::Close()).encode(), vec![1, 2]);
}

#[test]
fn hrmp_encode_calls() {
    assert_eq!(
        MockHrmpEncoder::hrmp_encode_call(HrmpAvailableCalls::InitOpenChannel(2, 8, 1024)),
        Ok(vec![1, 0])
    );
    assert_eq!(
        MockHrmpEncoder::hrmp_encode_call(HrmpAvailableCalls::AcceptOpenChannel(2)),
        Ok(vec![1, 1])
    );
    assert_eq!(
        MockHrmpEncoder::hrmp_encode_call(HrmpAvailableCalls::CloseChannel(2, 8)),
        Ok(vec![1, 2])
    );
    assert_eq!(
        MockHrmpEncoder::hrmp_encode_call(HrmpAvailableCalls::CancelOpenRequest(2, 8, 4)),
        Ok(vec![1, 2])
    );
}

#[test]
fn account_id_to_location_fixed_key() {
    let loc = AccountIdToLocation::convert([3u8; 32]);
    assert_eq!(loc.parents, 0);
    assert_eq!(loc.interior.len(), 1);
    match &loc.interior[0] {
        Junction::AccountKey20 { key } => assert_eq!(key, &vec![0xAAu8; 20]),
        other => panic!("unexpected junction: {:?}", other),
    }
}

#[test]
fn currency_id_to_location_cases() {
    let own = CurrencyIdToLocation::convert(CurrencyId::SelfReserve).unwrap();
    assert_eq!(own.parents, 1);
    assert_eq!(own.interior.len(), 2);
    assert!(matches!(own.interior[0], Junction::Parachain(100)));
    assert!(matches!(own.interior[1], Junction::PalletInstance(1)));
    let relay = CurrencyIdToLocation::convert(CurrencyId::OtherReserve(0)).unwrap();
    assert_eq!(relay.parents, 1);
    assert!(relay.interior.is_empty());
    let sibling = CurrencyIdToLocation::convert(CurrencyId::OtherReserve(42)).unwrap();
    assert_eq!(sibling.parents, 1);
    assert!(matches!(sibling.interior[0], Junction::Parachain(2)));
}

#[test]
fn test_send_xcm_records() {
    let mut sender = TestSendXcm::new();
    let dest = Location::parent();
    let r = sender.validate(Some(dest), Some(vec![5, 6]));
    assert!(r.is_ok());
    assert_eq!(sender.sent.len(), 1);
    assert_eq!(sender.sent[0].0.parents, 1);
    assert_eq!(sender.sent[0].1, vec![5, 6]);
    assert_eq!(sender.deliver(), vec![0u8; 32]);
}

#[test]
fn dummy_asset_transactor_accepts_everything() {
    let asset = (Location::parent(), 1_000_000_000_000u128);
    let who = Location::parent();
    assert!(DummyAssetTransactor::deposit_asset(&asset, &who).is_ok());
    let holding = DummyAssetTransactor::withdraw_asset(&asset, &who).unwrap();
    assert!(holding.is_empty());
}

#[test]
fn dummy_weigher_weighs_zero() {
    assert_eq!(DummyWeigher::weight(&vec![1, 2, 3]), Ok(Weight { ref_time: 0, proof_size: 0 }));
    assert_eq!(DummyWeigher::instr_weight(&vec![]), Ok(Weight { ref_time: 0, proof_size: 0 }));
}
