use ethabi::{decode, short_signature, ParamType, Token};
use liquidity_pools_gateway_routers::axelar_evm::{
    get_axelar_encoded_msg, ChainIdentifier, ConfigError, EncodeError,
};
use liquidity_pools_gateway_routers::{
    AXELAR_DESTINATION_CHAIN_PARAM, AXELAR_DESTINATION_CONTRACT_ADDRESS_PARAM,
    AXELAR_FUNCTION_NAME, AXELAR_PAYLOAD_PARAM, MAX_AXELAR_EVM_CHAIN_SIZE,
};

fn param_types() -> Vec<ParamType> {
    vec![ParamType::String, ParamType::String, ParamType::Bytes]
}

fn sample_address() -> [u8; 20] {
    let mut a = [0u8; 20];
    a[19] = 0x0a;
    a
}

#[test]
fn encode_is_deterministic() {
    let msg = vec![1u8, 2, 3, 4, 5];
    let chain = b"Ethereum".to_vec();
    let first = get_axelar_encoded_msg(msg.clone(), chain.clone(), sample_address()).unwrap();
    let second = get_axelar_encoded_msg(msg, chain, sample_address()).unwrap();
    assert_eq!(first, second);
}

#[test]
fn selector_is_stable_across_inputs() {
    let expected = short_signature(AXELAR_FUNCTION_NAME, &param_types());
    let one = get_axelar_encoded_msg(vec![0xAA], b"Moonbeam".to_vec(), sample_address()).unwrap();
    let two = get_axelar_encoded_msg(vec![], b"Ethereum".to_vec(), [0xFF; 20]).unwrap();
    assert_eq!(&one[0..4], &expected);
    assert_eq!(&two[0..4], &expected);
}

#[test]
#[allow(deprecated)]
fn encode_matches_ethabi_function_encoding() {
    let function = ethabi::Function {
        name: AXELAR_FUNCTION_NAME.into(),
        inputs: vec![
            ethabi::Param {
                name: AXELAR_DESTINATION_CHAIN_PARAM.into(),
                kind: ParamType::String,
                internal_type: None,
            },
            ethabi::Param {
                name: AXELAR_DESTINATION_CONTRACT_ADDRESS_PARAM.into(),
                kind: ParamType::String,
                internal_type: None,
            },
            ethabi::Param { name: AXELAR_PAYLOAD_PARAM.into(), kind: ParamType::Bytes, internal_type: None },
        ],
        outputs: vec![],
        constant: Some(false),
        state_mutability: Default::default(),
    };
    let payload = vec![0xDE, 0xAD, 0xBE, 0xEF, 0x01];
    let reference = function
        .encode_input(&[
            Token::String("Moonbeam".into()),
            Token::String("0x000000000000000000000000000000000000000a".into()),
            Token::Bytes(payload.clone()),
        ])
        .unwrap();
    let ours = get_axelar_encoded_msg(payload, b"Moonbeam".to_vec(), sample_address()).unwrap();
    assert_eq!(ours, reference);
}

#[test]
fn round_trip_decodes_original_arguments() {
    let cases: Vec<(Vec<u8>, Vec<u8>, [u8; 20])> = vec![
        (vec![], b"Ethereum".to_vec(), [0u8; 20]),
        (vec![0u8; 33], b"a".to_vec(), [0x7F; 20]),
        (vec![1, 2, 3], Vec::new(), sample_address()),
        ((0..=255u8).collect(), b"Base".to_vec(), [0xAB; 20]),
    ];
    for (payload, chain, address) in cases {
        let out = get_axelar_encoded_msg(payload.clone(), chain.clone(), address).unwrap();
        let tokens = decode(&param_types(), &out[4..]).unwrap();
        let expected_addr = format!("0x{}", hex::encode(address));
        assert_eq!(tokens.len(), 3);
        assert_eq!(tokens[0], Token::String(String::from_utf8(chain).unwrap()));
        assert_eq!(tokens[1], Token::String(expected_addr));
        assert_eq!(tokens[2], Token::Bytes(payload));
    }
}

#[test]
fn concrete_scenario_moonbeam() {
    let payload = vec![0xAA, 0xBB];
    let out =
        get_axelar_encoded_msg(payload.clone(), b"Moonbeam".to_vec(), sample_address()).unwrap();
    let again =
        get_axelar_encoded_msg(payload.clone(), b"Moonbeam".to_vec(), sample_address()).unwrap();
    assert_eq!(out, again);
    let tokens = decode(&param_types(), &out[4..]).unwrap();
    assert_eq!(tokens[0], Token::String("Moonbeam".into()));
    assert_eq!(
        tokens[1],
        Token::String("0x000000000000000000000000000000000000000a".into())
    );
    assert_eq!(tokens[2], Token::Bytes(payload));
}

#[test]
fn invalid_utf8_chain_is_rejected() {
    for bad in [vec![0xFF], vec![0xC0, 0x20], vec![0xED, 0xA0, 0x80], vec![b'o', b'k', 0x80]] {
        let r = get_axelar_encoded_msg(vec![1, 2], bad, sample_address());
        assert_eq!(r, Err(EncodeError::InvalidChainIdEncoding));
    }
}

#[test]
fn error_reason_strings() {
    assert_eq!(
        EncodeError::FunctionDescriptorUnavailable.reason(),
        "cannot retrieve Axelar contract function"
    );
    assert_eq!(EncodeError::InvalidChainIdEncoding.reason(), "target chain conversion error");
    assert_eq!(
        EncodeError::ArgumentEncodingFailed.reason(),
        "cannot encode input for Axelar contract function"
    );
}

#[test]
fn chain_identifier_respects_bound() {
    let max = MAX_AXELAR_EVM_CHAIN_SIZE as usize;
    let ok = ChainIdentifier::new(vec![b'x'; max]).unwrap();
    assert_eq!(ok.as_bytes().len(), max);
    let err = ChainIdentifier::new(vec![b'x'; max + 1]);
    assert!(matches!(err, Err(ConfigError::ChainIdTooLong)));
}
