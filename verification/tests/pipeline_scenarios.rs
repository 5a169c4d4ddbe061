//! End-to-end pipeline scenarios, with the node's answers supplied as
//! events.

use near_crypto::{KeyType, SecretKey, Signature};
use near_greeting::config::NetworkConfig;
use near_greeting::credentials::NearCredential;
use near_greeting::errors::PipelineError;
use near_greeting::greeting::greeting_args;
use near_greeting::pipeline::{
    AccessKeyOutcome, BroadcastOutcome, SubmissionStep, begin_submission,
    continue_after_access_key, continue_after_broadcast,
};
use near_greeting::transaction::DEFAULT_FUNCTION_CALL_GAS;

fn config() -> NetworkConfig {
    NetworkConfig { rpc_url: "E".to_string(), contract_id: "hello.near".to_string() }
}

fn credential(with_private_key: bool) -> (NearCredential, SecretKey) {
    let sk = SecretKey::from_seed(KeyType::ED25519, "alice");
    let cred = NearCredential {
        account_id: "alice.near".to_string(),
        public_key: sk.public_key().to_string(),
        network: "mainnet".to_string(),
        private_key: if with_private_key { Some(sk.to_string()) } else { None },
    };
    (cred, sk)
}

fn begin(with_private_key: bool) -> (SubmissionStep, SecretKey) {
    let (cred, sk) = credential(with_private_key);
    let step = begin_submission(
        &config(),
        &cred,
        "set_greeting".to_string(),
        greeting_args("hi"),
        DEFAULT_FUNCTION_CALL_GAS,
        0,
    );
    (step, sk)
}

#[test]
fn full_submission_builds_signs_and_succeeds() {
    let (step, sk) = begin(true);
    let pending = match step {
        SubmissionStep::QueryAccessKey { pending } => pending,
        _ => panic!("expected an access-key query"),
    };
    assert_eq!(pending.rpc_url, "E");
    assert_eq!(pending.contract_id, "hello.near");
    assert_eq!(pending.signer_id, "alice.near");
    let anchor = vec![0xB1u8; 32];
    let step = continue_after_access_key(
        pending,
        AccessKeyOutcome::Known { nonce: 5, block_hash: anchor.clone() },
    );
    let envelope = match step {
        SubmissionStep::Broadcast { envelope } => envelope,
        _ => panic!("expected a broadcast step"),
    };
    assert_eq!(envelope.record.nonce, 6);
    assert_eq!(envelope.record.receiver_id, "hello.near");
    assert_eq!(envelope.record.block_hash, anchor);
    assert_eq!(envelope.record.actions.len(), 1);
    assert_eq!(envelope.record.actions[0].method_name, "set_greeting");
    assert_eq!(envelope.record.actions[0].args, b"{\"greeting\":\"hi\"}".to_vec());
    assert_eq!(envelope.record.actions[0].gas, 30_000_000_000_000);
    assert_eq!(envelope.record.actions[0].deposit, 0);
    let bytes = near_greeting::encode::encode_record(&envelope.record);
    let digest = near_primitives::hash::hash(&bytes);
    let sig = Signature::from_parts(KeyType::ED25519, &envelope.signature).unwrap();
    assert!(sig.verify(digest.0.as_slice(), &sk.public_key()));
    let outcome = continue_after_broadcast(BroadcastOutcome::Succeeded {
        transaction_id: "T1".to_string(),
    });
    assert_eq!(outcome.unwrap().transaction_id, "T1");
}

#[test]
fn missing_private_key_finishes_before_any_query() {
    let (step, _) = begin(false);
    match step {
        SubmissionStep::Finished { result } => {
            assert!(matches!(result.unwrap_err(), PipelineError::CredentialError { .. }));
        },
        _ => panic!("a missing private key must stop the pipeline at once"),
    }
}

#[test]
fn unknown_key_answer_becomes_a_credential_error() {
    let (step, _) = begin(true);
    let pending = match step {
        SubmissionStep::QueryAccessKey { pending } => pending,
        _ => panic!("expected an access-key query"),
    };
    let step = continue_after_access_key(
        pending,
        AccessKeyOutcome::UnknownKey { detail: "unknown public key".to_string() },
    );
    match step {
        SubmissionStep::Finished { result } => {
            let err = result.unwrap_err();
            assert!(matches!(err, PipelineError::CredentialError { .. }));
            assert_eq!(err.detail().as_str(), "unknown public key");
        },
        _ => panic!("a failed query must finish the pipeline"),
    }
}

#[test]
fn other_protocol_answer_keeps_its_kind() {
    let (step, _) = begin(true);
    let pending = match step {
        SubmissionStep::QueryAccessKey { pending } => pending,
        _ => panic!("expected an access-key query"),
    };
    let step = continue_after_access_key(
        pending,
        AccessKeyOutcome::ProtocolError { detail: "garbled request".to_string() },
    );
    match step {
        SubmissionStep::Finished { result } => {
            assert!(matches!(result.unwrap_err(), PipelineError::RpcProtocolError { .. }));
        },
        _ => panic!("a failed query must finish the pipeline"),
    }
}

#[test]
fn unreachable_node_is_a_transport_error() {
    let (step, _) = begin(true);
    let pending = match step {
        SubmissionStep::QueryAccessKey { pending } => pending,
        _ => panic!("expected an access-key query"),
    };
    let step = continue_after_access_key(
        pending,
        AccessKeyOutcome::TransportError { detail: "timed out".to_string() },
    );
    match step {
        SubmissionStep::Finished { result } => {
            assert!(matches!(result.unwrap_err(), PipelineError::TransportError { .. }));
        },
        _ => panic!("a failed query must finish the pipeline"),
    }
}

#[test]
fn two_submissions_on_one_nonce_split_into_success_and_rejection() {
    let anchor = vec![2u8; 32];
    let mut envelopes = Vec::new();
    for _ in 0..2 {
        let (step, _) = begin(true);
        let pending = match step {
            SubmissionStep::QueryAccessKey { pending } => pending,
            _ => panic!("expected an access-key query"),
        };
        let step = continue_after_access_key(
            pending,
            AccessKeyOutcome::Known { nonce: 5, block_hash: anchor.clone() },
        );
        match step {
            SubmissionStep::Broadcast { envelope } => envelopes.push(envelope),
            _ => panic!("expected a broadcast step"),
        }
    }
    assert_eq!(envelopes[0].record.nonce, 6);
    assert_eq!(envelopes[1].record.nonce, 6);
    // The node applies at most one of them; the winner's answer:
    let first = continue_after_broadcast(BroadcastOutcome::Succeeded {
        transaction_id: "T1".to_string(),
    });
    assert!(first.is_ok());
    // The loser is refused before execution, and that is how it surfaces:
    let second = continue_after_broadcast(BroadcastOutcome::Rejected {
        reason: "stale nonce".to_string(),
    });
    let err = second.unwrap_err();
    assert!(matches!(err, PipelineError::RejectedBeforeExecution { .. }));
    assert!(!matches!(err, PipelineError::ExecutionFailure { .. }));
    assert_eq!(err.detail().as_str(), "stale nonce");
}

#[test]
fn failed_execution_is_an_execution_failure() {
    let outcome = continue_after_broadcast(BroadcastOutcome::ExecutionFailed {
        transaction_id: "T2".to_string(),
        reason: "method panicked".to_string(),
    });
    let err = outcome.unwrap_err();
    assert!(matches!(err, PipelineError::ExecutionFailure { .. }));
    assert_eq!(err.detail().as_str(), "method panicked");
}

#[test]
fn undecodable_public_key_finishes_before_any_query() {
    let cred = NearCredential {
        account_id: "alice.near".to_string(),
        public_key: "ed25519:???".to_string(),
        network: "mainnet".to_string(),
        private_key: Some(SecretKey::from_seed(KeyType::ED25519, "alice").to_string()),
    };
    let step = begin_submission(
        &config(),
        &cred,
        "set_greeting".to_string(),
        greeting_args("hi"),
        DEFAULT_FUNCTION_CALL_GAS,
        0,
    );
    match step {
        SubmissionStep::Finished { result } => {
            assert!(matches!(result.unwrap_err(), PipelineError::CredentialError { .. }));
        },
        _ => panic!("an undecodable public key must stop the pipeline at once"),
    }
}
