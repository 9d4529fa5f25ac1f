use zksync_state::kms::{seed_from_plaintext, transaction_signature_v, typed_data_signature_v};
use zksync_state::signing_layer::{
    EthSenderWallets, GatewayChainConfig, Input, PKSigningEthClientLayer, SignerKey,
    SigningEthClientType, WiringError,
};
use zksync_state::tx_sink::{
    DenyListPoolSink, DenyListPoolSinkLayer, Input as SinkInput, MasterPoolSinkLayer, SubmitTxError,
};
use zksync_state::types::{Address, H256};

fn wallets(blob: bool) -> EthSenderWallets {
    EthSenderWallets {
        operator: H256::from_low_u64_be(1),
        blob_operator: if blob { Some(H256::from_low_u64_be(2)) } else { None },
    }
}

fn layer(
    fee: Option<u64>,
    gateway: Option<GatewayChainConfig>,
    blob: bool,
    client_type: SigningEthClientType,
) -> PKSigningEthClientLayer {
    PKSigningEthClientLayer::new(fee, Address::from_low_u64_be(0xd1), gateway, wallets(blob), client_type)
}

fn input(has_gateway_client: bool, op: Option<&str>, blob: Option<&str>) -> Input {
    Input {
        l1_chain_id: 9,
        has_gateway_client,
        kms_op_key_name: op.map(|s| s.to_string()),
        kms_op_blob_key_name: blob.map(|s| s.to_string()),
    }
}

fn private_key(k: &SignerKey) -> Option<H256> {
    match k {
        SignerKey::PrivateKey(h) => Some(*h),
        SignerKey::KmsKeyName(_) => None,
    }
}

fn kms_name(k: &SignerKey) -> Option<String> {
    match k {
        SignerKey::KmsKeyName(n) => Some(n.clone()),
        SignerKey::PrivateKey(_) => None,
    }
}

#[test]
fn private_key_clients_with_blobs_and_gateway() {
    let gateway = GatewayChainConfig { gateway_chain_id: 505, diamond_proxy_addr: Address::from_low_u64_be(0xd2) };
    let out = layer(Some(3), Some(gateway), true, SigningEthClientType::PKSigningEthClient)
        .wire(input(true, None, None))
        .unwrap();
    assert_eq!(private_key(&out.signing_client.key), Some(H256::from_low_u64_be(1)));
    assert_eq!(out.signing_client.chain_id, 9);
    assert_eq!(out.signing_client.default_priority_fee_per_gas, 3);
    assert_eq!(out.signing_client.diamond_proxy_addr, Address::from_low_u64_be(0xd1));
    let blobs = out.signing_client_for_blobs.unwrap();
    assert_eq!(private_key(&blobs.key), Some(H256::from_low_u64_be(2)));
    let gw = out.signing_client_for_gateway.unwrap();
    assert_eq!(private_key(&gw.key), Some(H256::from_low_u64_be(1)));
    assert_eq!(gw.chain_id, 505);
    assert_eq!(gw.diamond_proxy_addr, Address::from_low_u64_be(0xd2));
}

#[test]
fn gateway_with_zero_chain_id_gets_no_client() {
    let gateway = GatewayChainConfig { gateway_chain_id: 0, diamond_proxy_addr: Address::from_low_u64_be(0xd2) };
    let out = layer(Some(3), Some(gateway), false, SigningEthClientType::PKSigningEthClient)
        .wire(input(true, None, None))
        .unwrap();
    assert!(out.signing_client_for_blobs.is_none());
    assert!(out.signing_client_for_gateway.is_none());
}

#[test]
fn gateway_config_without_client_gets_no_client() {
    let gateway = GatewayChainConfig { gateway_chain_id: 7, diamond_proxy_addr: Address::from_low_u64_be(0xd2) };
    let out = layer(Some(3), Some(gateway), false, SigningEthClientType::PKSigningEthClient)
        .wire(input(false, None, None))
        .unwrap();
    assert!(out.signing_client_for_gateway.is_none());
}

#[test]
fn kms_clients_use_named_keys() {
    let gateway = GatewayChainConfig { gateway_chain_id: 505, diamond_proxy_addr: Address::from_low_u64_be(0xd2) };
    let out = layer(Some(4), Some(gateway), true, SigningEthClientType::GKMSSigningEthClient)
        .wire(input(true, Some("op-key"), Some("blob-key")))
        .unwrap();
    assert_eq!(kms_name(&out.signing_client.key), Some("op-key".to_string()));
    assert_eq!(kms_name(&out.signing_client_for_blobs.unwrap().key), Some("blob-key".to_string()));
    assert_eq!(kms_name(&out.signing_client_for_gateway.unwrap().key), Some("op-key".to_string()));
}

#[test]
fn kms_without_blob_key_has_no_blob_client() {
    let out = layer(Some(4), None, true, SigningEthClientType::GKMSSigningEthClient)
        .wire(input(false, Some("op-key"), None))
        .unwrap();
    assert!(out.signing_client_for_blobs.is_none());
}

#[test]
fn kms_without_operator_key_fails() {
    let r = layer(Some(4), None, false, SigningEthClientType::GKMSSigningEthClient).wire(input(false, None, None));
    assert_eq!(r.err(), Some(WiringError::MissingKmsOpKeyName));
}

#[test]
fn missing_gas_adjuster_fails() {
    let r = layer(None, None, false, SigningEthClientType::PKSigningEthClient).wire(input(false, None, None));
    assert_eq!(r.err(), Some(WiringError::MissingGasAdjusterConfig));
}

#[test]
fn seed_is_plaintext_in_hex() {
    assert_eq!(seed_from_plaintext(&vec![0xab, 0x01, 0xff, 0x00]), "ab01ff00");
    assert_eq!(seed_from_plaintext(&vec![]), "");
}

#[test]
fn legacy_signature_folds_chain_id() {
    assert_eq!(transaction_signature_v(1, 5, None), Some(1 + 10 + 35));
    assert_eq!(transaction_signature_v(0, 5, Some(0)), Some(45));
    assert_eq!(transaction_signature_v(1, 5, Some(2)), Some(1));
    assert_eq!(transaction_signature_v(u64::MAX - 10, 5, None), None);
    assert_eq!(transaction_signature_v(0, u64::MAX / 2, Some(0)), None);
}

#[test]
fn deny_list_turns_away_listed_initiators() {
    let denied = Address::from_low_u64_be(66);
    let sink = DenyListPoolSink::new((), vec![Address::from_low_u64_be(1), denied]);
    assert_eq!(sink.check_initiator(denied), Err(SubmitTxError::SenderInDenyList(denied)));
    assert_eq!(sink.check_initiator(Address::from_low_u64_be(2)), Ok(()));
}

#[test]
fn sink_layers_wire_deny_lists() {
    let denied = Address::from_low_u64_be(66);
    let out = DenyListPoolSinkLayer::new(vec![denied]).wire(SinkInput { pool: 17u32 });
    assert_eq!(out.tx_sink.check_initiator(denied), Err(SubmitTxError::SenderInDenyList(denied)));
    assert_eq!(*out.tx_sink.master_pool_sink().pool(), 17);
    assert_eq!(out.tx_sink.master_pool_sink().check_initiator(denied), Ok(()));

    let out = MasterPoolSinkLayer::deny_list(Some(vec![denied])).wire(SinkInput { pool: 3u8 });
    assert_eq!(out.tx_sink.check_initiator(denied), Err(SubmitTxError::SenderInDenyList(denied)));
    let out = MasterPoolSinkLayer::default().wire(SinkInput { pool: 3u8 });
    assert_eq!(out.tx_sink.check_initiator(denied), Ok(()));
}

#[test]
fn typed_data_v_must_fit_in_a_byte() {
    assert_eq!(typed_data_signature_v(28), Some(28));
    assert_eq!(typed_data_signature_v(255), Some(255));
    assert_eq!(typed_data_signature_v(256), None);
}

#[test]
fn zero_word_is_zero() {
    assert!(H256::zero().is_zero());
    assert!(!H256::from_low_u64_be(1).is_zero());
    assert!(!H256 { w0: 1, w1: 0, w2: 0, w3: 0 }.is_zero());
}
