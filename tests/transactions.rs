use cosmos_grpc_client::tx::{AccountState, AnyMsg, Coin, Fee, SignedTx, UnsignedTx};
use cosmos_grpc_client::wallet::{BroadcastStep, Wallet};
use cosmos_grpc_client::{BroadcastMode, ChainFamily, ClientError, Decimal};
use cosmos_sdk_proto::cosmos::auth::v1beta1::BaseAccount;
use cosmos_sdk_proto::cosmos::tx::v1beta1::{AuthInfo, SignDoc, TxBody, TxRaw};
use k256::ecdsa::signature::{DigestVerifier, Verifier};
use prost::Message;

const MNEMONIC: &str = "abandon abandon abandon abandon abandon abandon abandon abandon abandon abandon abandon about";

fn wallet(prefix: &str, coin_type: u64) -> Wallet {
    Wallet::from_seed_phrase(
        "pisco-1".to_string(),
        MNEMONIC,
        prefix.to_string(),
        coin_type,
        0,
        Decimal::raw(15_000_000_000_000_000),
        Decimal::raw(2_000_000_000_000_000_000),
        "uluna".to_string(),
    )
    .unwrap()
}

fn send_msg() -> AnyMsg {
    AnyMsg { type_url: "/cosmos.bank.v1beta1.MsgSend".to_string(), value: vec![10, 3, 1, 2, 3] }
}

fn fee() -> Fee {
    Fee { amount: vec![Coin { denom: "uluna".to_string(), amount: 3001 }], gas_limit: 199999 }
}

fn sign_doc_bytes(tx: &SignedTx, chain_id: &str, account_number: u64) -> Vec<u8> {
    SignDoc {
        body_bytes: tx.body_bytes.clone(),
        auth_info_bytes: tx.auth_info_bytes.clone(),
        chain_id: chain_id.to_string(),
        account_number,
    }
    .encode_to_vec()
}

#[test]
fn build_keeps_message_order_and_empty_memo() {
    let other = AnyMsg { type_url: "/x.Msg".to_string(), value: vec![1] };
    let tx = UnsignedTx::build(vec![send_msg(), other.clone()], fee(), None);
    assert_eq!(tx.messages, vec![send_msg(), other]);
    assert_eq!(tx.memo, "");
    let tx = UnsignedTx::build(vec![], fee(), Some("hi".to_string()));
    assert_eq!(tx.memo, "hi");
}

#[test]
fn signed_tx_round_trips_signer_address() {
    for (prefix, coin) in [("terra", 330u64), ("cosmos", 118), ("inj", 60)] {
        let mut w = wallet(prefix, coin);
        w.bootstrap(AccountState { account_number: 7, sequence: 3 });
        let tx = w.create_tx(vec![send_msg()], fee(), Some("memo".to_string())).unwrap();
        assert_eq!(&tx.signer_address(w.family(), w.prefix()).unwrap(), w.account_address());
        assert_eq!(tx.signer.sequence, 3);
        assert_eq!(&tx.signer.public_key, w.public_key());
    }
}

#[test]
fn standard_signature_verifies_over_sign_doc() {
    let mut w = wallet("terra", 330);
    w.bootstrap(AccountState { account_number: 12, sequence: 5 });
    let tx = w.create_tx(vec![send_msg()], fee(), None).unwrap();
    let body = TxBody::decode(tx.body_bytes.as_slice()).unwrap();
    assert_eq!(body.messages.len(), 1);
    assert_eq!(body.messages[0].type_url, "/cosmos.bank.v1beta1.MsgSend");
    assert_eq!(body.memo, "");
    let auth = AuthInfo::decode(tx.auth_info_bytes.as_slice()).unwrap();
    assert_eq!(auth.signer_infos.len(), 1);
    assert_eq!(auth.signer_infos[0].sequence, 5);
    let key = auth.signer_infos[0].public_key.clone().unwrap();
    assert_eq!(key.type_url, "/cosmos.crypto.secp256k1.PubKey");
    let fee = auth.fee.unwrap();
    assert_eq!(fee.gas_limit, 199999);
    assert_eq!(fee.amount[0].amount, "3001");
    assert_eq!(fee.amount[0].denom, "uluna");

    let doc = sign_doc_bytes(&tx, "pisco-1", 12);
    let vk = k256::ecdsa::VerifyingKey::from_sec1_bytes(w.public_key()).unwrap();
    let sig = k256::ecdsa::Signature::from_slice(&tx.signatures[0]).unwrap();
    assert!(vk.verify(&doc, &sig).is_ok());
}

#[test]
fn families_sign_differently() {
    let secret = [7u8; 32];
    let key_wallet = |coin_type: u64| {
        Wallet::from_private_key(
            "pisco-1".to_string(),
            &secret,
            "inj".to_string(),
            coin_type,
            Decimal::raw(15_000_000_000_000_000),
            Decimal::raw(2_000_000_000_000_000_000),
            "inj".to_string(),
        )
        .unwrap()
    };
    let standard = key_wallet(118);
    let eth = key_wallet(60);
    assert_eq!(standard.public_key(), eth.public_key());
    assert_ne!(standard.account_address(), eth.account_address());
    let a = standard.create_tx(vec![send_msg()], fee(), None).unwrap();
    let b = eth.create_tx(vec![send_msg()], fee(), None).unwrap();
    assert_ne!(a.signatures[0], b.signatures[0]);
    assert_ne!(a.signer.public_key_type_url, b.signer.public_key_type_url);
    assert_eq!(b.signer.public_key_type_url, "/injective.crypto.v1beta1.ethsecp256k1.PubKey");
    let auth = AuthInfo::decode(b.auth_info_bytes.as_slice()).unwrap();
    assert_eq!(
        auth.signer_infos[0].public_key.as_ref().unwrap().type_url,
        "/injective.crypto.v1beta1.ethsecp256k1.PubKey"
    );

    let doc = sign_doc_bytes(&b, "pisco-1", 0);
    let vk = k256::ecdsa::VerifyingKey::from_sec1_bytes(eth.public_key()).unwrap();
    let sig = k256::ecdsa::Signature::from_slice(&b.signatures[0]).unwrap();
    assert!(vk.verify(&doc, &sig).is_err());
    let digest = <sha3::Keccak256 as sha3::Digest>::new_with_prefix(&doc);
    assert!(vk.verify_digest(digest, &sig).is_ok());
    assert_eq!(b.signatures[0].len(), 64);
    assert!(vk.verify(&doc, &k256::ecdsa::Signature::from_slice(&a.signatures[0]).unwrap()).is_err());
}

#[test]
fn malformed_chain_id_fails_signing() {
    let with_chain = |chain_id: String| {
        Wallet::from_seed_phrase(
            chain_id,
            MNEMONIC,
            "terra".to_string(),
            330,
            0,
            Decimal::raw(15_000_000_000_000_000),
            Decimal::raw(2_000_000_000_000_000_000),
            "uluna".to_string(),
        )
        .unwrap()
    };
    for bad in [String::new(), "pisco 1".to_string(), "a".repeat(51)] {
        assert_eq!(
            with_chain(bad).create_tx(vec![send_msg()], fee(), None),
            Err(ClientError::SigningFailure)
        );
    }
    assert!(with_chain("a".repeat(50)).create_tx(vec![send_msg()], fee(), None).is_ok());
}

#[test]
fn tx_bytes_are_a_tx_raw() {
    let w = wallet("terra", 330);
    let tx = w.create_tx(vec![send_msg()], fee(), None).unwrap();
    let raw = TxRaw::decode(tx.to_bytes().as_slice()).unwrap();
    assert_eq!(raw.body_bytes, tx.body_bytes);
    assert_eq!(raw.auth_info_bytes, tx.auth_info_bytes);
    assert_eq!(raw.signatures, tx.signatures);
}

#[test]
fn simulation_tx_has_zero_fee() {
    let w = wallet("terra", 330);
    let tx = w.simulate_tx(vec![send_msg()]).unwrap();
    let auth = AuthInfo::decode(tx.auth_info_bytes.as_slice()).unwrap();
    let fee = auth.fee.unwrap();
    assert_eq!(fee.gas_limit, 0);
    assert!(fee.amount.is_empty());
    assert_eq!(TxBody::decode(tx.body_bytes.as_slice()).unwrap().memo, "");
}

#[test]
fn explicit_fee_skips_simulation() {
    let w = wallet("terra", 330);
    match w.broadcast_tx(vec![send_msg()], Some(fee()), None, BroadcastMode::Sync).unwrap() {
        BroadcastStep::Submit(req) => {
            assert_eq!(req.mode, 2);
            let raw = TxRaw::decode(req.tx_bytes.as_slice()).unwrap();
            let auth = AuthInfo::decode(raw.auth_info_bytes.as_slice()).unwrap();
            assert_eq!(auth.fee.unwrap().gas_limit, 199999);
        }
        BroadcastStep::Simulate(_) => panic!("an explicit fee must not be simulated"),
    }
    match w.broadcast_tx(vec![send_msg()], None, None, BroadcastMode::Block).unwrap() {
        BroadcastStep::Simulate(bytes) => assert!(TxRaw::decode(bytes.as_slice()).is_ok()),
        BroadcastStep::Submit(_) => panic!("a missing fee must be estimated first"),
    }
}

#[test]
fn fee_follows_simulated_gas() {
    let w = wallet("terra", 330);
    let req = w
        .broadcast_after_simulation(vec![send_msg()], Some(100000), None, BroadcastMode::Async)
        .unwrap();
    assert_eq!(req.mode, 3);
    let raw = TxRaw::decode(req.tx_bytes.as_slice()).unwrap();
    let fee = AuthInfo::decode(raw.auth_info_bytes.as_slice()).unwrap().fee.unwrap();
    assert_eq!(fee.amount[0].amount, "3001");
    assert_eq!(fee.gas_limit, 199999);
    assert_eq!(
        w.broadcast_after_simulation(vec![send_msg()], None, None, BroadcastMode::Sync),
        Err(ClientError::NoGasEstimate)
    );
}

#[test]
fn sequence_advances_only_on_accepted_broadcasts() {
    let mut w = wallet("terra", 330);
    w.bootstrap(AccountState { account_number: 4, sequence: 10 });
    let mut sent = vec![];
    for accepted in [true, true, false, true] {
        let tx = w.create_tx(vec![send_msg()], fee(), None).unwrap();
        sent.push(tx.signer.sequence);
        w.finish_broadcast(accepted);
    }
    assert_eq!(sent, vec![10, 11, 12, 12]);
    assert_eq!(w.account_sequence(), 13);
    assert_eq!(w.account_number(), 4);
}

#[test]
fn account_state_falls_back_to_zero() {
    let record = BaseAccount {
        address: "terra1".to_string(),
        pub_key: None,
        account_number: 42,
        sequence: 9,
    }
    .encode_to_vec();
    assert_eq!(
        AccountState::from_base_account(Some(record)),
        AccountState { account_number: 42, sequence: 9 }
    );
    assert_eq!(
        AccountState::from_base_account(None),
        AccountState { account_number: 0, sequence: 0 }
    );
    assert_eq!(
        AccountState::from_base_account(Some(vec![0xff, 0xff, 0xff])),
        AccountState { account_number: 0, sequence: 0 }
    );
    assert_eq!(
        AccountState::from_counters(Some((3, 4))),
        AccountState { account_number: 3, sequence: 4 }
    );
    assert_eq!(AccountState::from_counters(None), AccountState { account_number: 0, sequence: 0 });
}

#[test]
fn standard_family_of_wallets() {
    assert_eq!(wallet("terra", 330).family(), ChainFamily::Standard);
}
