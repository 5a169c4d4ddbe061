//! The record builder: the strict-successor nonce and each refusal.

use near_crypto::{KeyType, SecretKey};
use near_greeting::errors::PipelineError;
use near_greeting::transaction::{
    build_transaction_record, AccessKeyState, PublicKeyData, DEFAULT_FUNCTION_CALL_GAS,
};

fn signer_key_parts() -> PublicKeyData {
    let pk = SecretKey::from_seed(KeyType::ED25519, "alice").public_key();
    PublicKeyData { tag: pk.key_type() as u8, data: pk.key_data().to_vec() }
}

fn build(
    signer: &str,
    public_key: PublicKeyData,
    nonce: u64,
    anchor_len: usize,
    receiver: &str,
) -> Result<near_greeting::transaction::TransactionRecord, PipelineError> {
    let state = AccessKeyState { nonce, block_hash: vec![7u8; anchor_len] };
    build_transaction_record(
        signer.to_string(),
        public_key,
        &state,
        receiver.to_string(),
        "set_greeting".to_string(),
        b"{\"greeting\":\"hi\"}".to_vec(),
        DEFAULT_FUNCTION_CALL_GAS,
        0,
    )
}

#[test]
fn built_nonce_is_the_strict_successor() {
    let rec = build("alice.near", signer_key_parts(), 5, 32, "hello.near").unwrap();
    assert_eq!(rec.nonce, 6);
    assert_eq!(rec.actions.len(), 1);
    assert_eq!(rec.actions[0].gas, DEFAULT_FUNCTION_CALL_GAS);
    assert_eq!(rec.actions[0].deposit, 0);
}

#[test]
fn invalid_signer_id_is_a_credential_error() {
    let err = build("Bad..Id", signer_key_parts(), 5, 32, "hello.near").unwrap_err();
    assert!(matches!(err, PipelineError::CredentialError { .. }));
}

#[test]
fn unknown_key_scheme_is_a_credential_error() {
    let bad = PublicKeyData { tag: 9, data: vec![0u8; 32] };
    let err = build("alice.near", bad, 5, 32, "hello.near").unwrap_err();
    assert!(matches!(err, PipelineError::CredentialError { .. }));
}

#[test]
fn key_of_the_wrong_length_is_a_credential_error() {
    let bad = PublicKeyData { tag: 0, data: vec![0u8; 31] };
    let err = build("alice.near", bad, 5, 32, "hello.near").unwrap_err();
    assert!(matches!(err, PipelineError::CredentialError { .. }));
}

#[test]
fn invalid_receiver_id_is_a_config_error() {
    let err = build("alice.near", signer_key_parts(), 5, 32, "-bad-").unwrap_err();
    assert!(matches!(err, PipelineError::ConfigError { .. }));
}

#[test]
fn short_anchor_is_a_protocol_error() {
    let err = build("alice.near", signer_key_parts(), 5, 31, "hello.near").unwrap_err();
    assert!(matches!(err, PipelineError::RpcProtocolError { .. }));
}

#[test]
fn a_nonce_without_a_successor_is_a_protocol_error() {
    let err = build("alice.near", signer_key_parts(), u64::MAX, 32, "hello.near").unwrap_err();
    assert!(matches!(err, PipelineError::RpcProtocolError { .. }));
}
