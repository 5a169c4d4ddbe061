//! Signing: produced signatures verify, and each failure keeps its kind.

use near_crypto::{KeyType, SecretKey, Signature};
use near_greeting::encode::encode_record;
use near_greeting::errors::PipelineError;
use near_greeting::sign::sign_record;
use near_greeting::transaction::{FunctionCallAction, PublicKeyData, TransactionRecord};

fn record_for(pk: &near_crypto::PublicKey, nonce: u64) -> TransactionRecord {
    TransactionRecord {
        signer_id: "alice.near".to_string(),
        public_key: PublicKeyData { tag: pk.key_type() as u8, data: pk.key_data().to_vec() },
        nonce,
        receiver_id: "hello.sleet.near".to_string(),
        block_hash: vec![7u8; 32],
        actions: vec![FunctionCallAction {
            method_name: "set_greeting".to_string(),
            args: b"{\"greeting\":\"hi\"}".to_vec(),
            gas: 30_000_000_000_000,
            deposit: 0,
        }],
    }
}

#[test]
fn ed25519_signature_verifies_against_declared_key() {
    let sk = SecretKey::from_seed(KeyType::ED25519, "alice");
    let pk = sk.public_key();
    let rec = record_for(&pk, 6);
    let bytes = encode_record(&rec);
    let env = sign_record(rec, &sk.to_string()).unwrap();
    assert_eq!(encode_record(&env.record), bytes);
    let digest = near_primitives::hash::hash(&bytes);
    let sig = Signature::from_parts(KeyType::ED25519, &env.signature).unwrap();
    assert!(sig.verify(digest.0.as_slice(), &pk));
}

#[test]
fn secp256k1_signature_verifies_against_declared_key() {
    let sk = SecretKey::from_seed(KeyType::SECP256K1, "bob");
    let pk = sk.public_key();
    let rec = record_for(&pk, 3);
    let bytes = encode_record(&rec);
    let env = sign_record(rec, &sk.to_string()).unwrap();
    let digest = near_primitives::hash::hash(&bytes);
    let sig = Signature::from_parts(KeyType::SECP256K1, &env.signature).unwrap();
    assert!(sig.verify(digest.0.as_slice(), &pk));
}

#[test]
fn signature_matches_ledger_signed_transaction() {
    let sk = SecretKey::from_seed(KeyType::ED25519, "alice");
    let pk = sk.public_key();
    let rec = record_for(&pk, 6);
    let bytes = encode_record(&rec);
    let env = sign_record(rec, &sk.to_string()).unwrap();
    // The ledger's own signing of the same bytes gives the same signature:
    // ed25519 signing is deterministic.
    let digest = near_primitives::hash::hash(&bytes);
    let expected = sk.sign(digest.0.as_slice());
    let produced = Signature::from_parts(KeyType::ED25519, &env.signature).unwrap();
    assert_eq!(produced, expected);
}

#[test]
fn key_of_another_signer_is_refused() {
    let sk = SecretKey::from_seed(KeyType::ED25519, "alice");
    let other = SecretKey::from_seed(KeyType::ED25519, "mallory");
    let rec = record_for(&sk.public_key(), 6);
    let err = sign_record(rec, &other.to_string()).unwrap_err();
    assert!(matches!(err, PipelineError::SigningError { .. }));
}

#[test]
fn malformed_key_is_refused() {
    let sk = SecretKey::from_seed(KeyType::ED25519, "alice");
    let rec = record_for(&sk.public_key(), 6);
    let err = sign_record(rec, "ed25519:not-a-key!!!").unwrap_err();
    assert!(matches!(err, PipelineError::SigningError { .. }));
}

#[test]
fn ill_formed_record_is_a_serialization_error() {
    let sk = SecretKey::from_seed(KeyType::ED25519, "alice");
    let mut rec = record_for(&sk.public_key(), 6);
    rec.block_hash = vec![7u8; 31];
    let err = sign_record(rec, &sk.to_string()).unwrap_err();
    assert!(matches!(err, PipelineError::SerializationError { .. }));
}

#[test]
fn record_with_invalid_signer_id_is_refused() {
    let sk = SecretKey::from_seed(KeyType::ED25519, "alice");
    let mut rec = record_for(&sk.public_key(), 6);
    rec.signer_id = "Not..Valid".to_string();
    let err = sign_record(rec, &sk.to_string()).unwrap_err();
    assert!(matches!(err, PipelineError::SerializationError { .. }));
}
