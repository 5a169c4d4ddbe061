//! The submission pipeline, step by step.
//!
//! Every stage that talks to the node is the caller's: the library hands
//! out a step saying which call to make, and classifies the call's result.
//! A submission runs `begin_submission`, then, if asked to, queries the
//! signer's access key and feeds the answer to
//! `continue_after_access_key`, then, if handed an envelope, broadcasts it
//! and feeds the answer to `continue_after_broadcast`. A pipeline that
//! fails before a step never asks for the calls that follow it, so a
//! missing private key provably causes no network traffic.

use vstd::prelude::*;
use vstd::utf8::encode_utf8;
use crate::account::valid_account_id;
use crate::config::NetworkConfig;
use crate::credentials::NearCredential;
use crate::errors::PipelineError;
use crate::sign::SignedEnvelope;
use crate::sign::decode_public_key;
use crate::sign::sign_record;
use crate::sign::spec_decoded_public_key;
use crate::sign::spec_record_digest;
use crate::sign::spec_secret_public_key;
use crate::sign::spec_sig_verifies;
use crate::sign::spec_signing_key_wf;
use crate::transaction::AccessKeyState;
use crate::transaction::MAX_FIELD_LEN;
use crate::transaction::PublicKeyData;
use crate::transaction::build_transaction_record;

verus! {

/// Everything a submission has fixed before the access-key query: where to
/// send the calls, who signs, what is called, and with what.
#[derive(Debug)]
pub struct PendingSubmission {
    /// The node's endpoint, for the caller's two network calls.
    pub rpc_url: String,
    /// The program the call targets, which is the record's receiver.
    pub contract_id: String,
    /// The signer's account id.
    pub signer_id: String,
    /// The signer's public key, as the credential stores it; the caller's
    /// access-key query needs this text.
    pub public_key_text: String,
    /// The signer's public key, decoded.
    pub public_key: PublicKeyData,
    /// The signer's private key text.
    pub private_key: String,
    /// The method the one action calls.
    pub method_name: String,
    /// The method's argument bytes.
    pub args: Vec<u8>,
    /// The action's gas budget.
    pub gas: u64,
    /// The action's attached deposit.
    pub deposit: u128,
}

/// What the caller's access-key query came back with, as plain values.
#[derive(Debug)]
pub enum AccessKeyOutcome {
    /// The node knows the key: its current nonce, and the hash of the
    /// finalized block the answer was anchored to, from the same reply.
    Known { nonce: u64, block_hash: Vec<u8> },
    /// The node answered that the account has no such key.
    UnknownKey { detail: String },
    /// The node answered with some other structured error.
    ProtocolError { detail: String },
    /// The node could not be reached.
    TransportError { detail: String },
}

/// What the caller's broadcast came back with, as plain values.
#[derive(Debug)]
pub enum BroadcastOutcome {
    /// The transaction executed and finalized; its effects stand.
    Succeeded { transaction_id: String },
    /// The transaction executed and the target method failed.
    ExecutionFailed { transaction_id: String, reason: String },
    /// The node refused to apply the transaction before execution, most
    /// commonly for a stale nonce.
    Rejected { reason: String },
    /// The node answered with some other structured error.
    ProtocolError { detail: String },
    /// The node could not be reached.
    TransportError { detail: String },
}

/// A terminal, successful outcome: the identifier of the finalized
/// transaction.
#[derive(Debug)]
pub struct SubmissionSuccess {
    pub transaction_id: String,
}

/// What the caller must do next.
#[derive(Debug)]
pub enum SubmissionStep {
    /// Query the signer's access key and nonce at the node, then call
    /// `continue_after_access_key`.
    QueryAccessKey { pending: PendingSubmission },
    /// Broadcast the envelope and await finality, then call
    /// `continue_after_broadcast`.
    Broadcast { envelope: SignedEnvelope },
    /// The pipeline is over, with this outcome.
    Finished { result: Result<SubmissionSuccess, PipelineError> },
}

/// The credential can open a submission: it carries a private key and its
/// public key text decodes.
pub open spec fn spec_credential_ready(credential: NearCredential) -> bool {
    &&& credential.private_key is Some
    &&& spec_decoded_public_key(credential.public_key@) is Some
}

/// Opens a submission for one method call.
///
/// Without a usable credential the pipeline finishes at once with
/// `CredentialError` — in particular, a missing private key stops it before
/// any network call. Otherwise the caller is asked to query the signer's
/// access key, with every later input pinned in the pending state.
pub fn begin_submission(
    config: &NetworkConfig,
    credential: &NearCredential,
    method_name: String,
    args: Vec<u8>,
    gas: u64,
    deposit: u128,
) -> (r: SubmissionStep)
    ensures
        match r {
            SubmissionStep::QueryAccessKey { pending } => {
                &&& spec_credential_ready(*credential)
                &&& pending.rpc_url@ == config.rpc_url@
                &&& pending.contract_id@ == config.contract_id@
                &&& pending.signer_id@ == credential.account_id@
                &&& pending.public_key_text@ == credential.public_key@
                &&& (pending.public_key.tag, pending.public_key.data@) == spec_decoded_public_key(
                    credential.public_key@,
                ).unwrap()
                &&& pending.private_key@ == credential.private_key.unwrap()@
                &&& pending.method_name@ == method_name@
                &&& pending.args@ == args@
                &&& pending.gas == gas
                &&& pending.deposit == deposit
            },
            SubmissionStep::Finished { result } => {
                &&& !spec_credential_ready(*credential)
                &&& result is Err
                &&& result.unwrap_err() is CredentialError
            },
            SubmissionStep::Broadcast { .. } => false,
        },
{
    let private_key = match &credential.private_key {
        Some(k) => k.clone(),
        None => {
            return SubmissionStep::Finished {
                result: Err(
                    PipelineError::CredentialError {
                        detail: "the credential holds no private key".to_owned(),
                    },
                ),
            };
        },
    };
    let (tag, data) = match decode_public_key(credential.public_key.as_str()) {
        Some(p) => p,
        None => {
            return SubmissionStep::Finished {
                result: Err(
                    PipelineError::CredentialError {
                        detail: "the credential's public key does not parse".to_owned(),
                    },
                ),
            };
        },
    };
    SubmissionStep::QueryAccessKey {
        pending: PendingSubmission {
            rpc_url: config.rpc_url.clone(),
            contract_id: config.contract_id.clone(),
            signer_id: credential.account_id.clone(),
            public_key_text: credential.public_key.clone(),
            public_key: PublicKeyData { tag, data },
            private_key,
            method_name,
            args,
            gas,
            deposit,
        },
    }
}

/// The pending inputs make a well-formed record for this nonce and anchor.
pub open spec fn spec_inputs_buildable(
    pending: PendingSubmission,
    nonce: u64,
    block_hash: Seq<u8>,
) -> bool {
    &&& valid_account_id(encode_utf8(pending.signer_id@))
    &&& pending.public_key.wf()
    &&& valid_account_id(encode_utf8(pending.contract_id@))
    &&& block_hash.len() == 32
    &&& nonce < u64::MAX
    &&& encode_utf8(pending.method_name@).len() <= MAX_FIELD_LEN
    &&& pending.args@.len() <= MAX_FIELD_LEN
}

/// The pending private key can sign and is the declared public key's
/// counterpart.
pub open spec fn spec_key_usable(pending: PendingSubmission) -> bool {
    &&& spec_signing_key_wf(pending.private_key@)
    &&& spec_secret_public_key(pending.private_key@) == Some(
        (pending.public_key.tag, pending.public_key.data@),
    )
}

/// Classifies the access-key answer and, where the node knew the key,
/// builds and signs the record.
///
/// The built record's nonce is the reported nonce plus exactly one, and the
/// envelope's signature verifies against the signer's declared public key
/// and the hash of the record's canonical bytes. On any failed query the
/// pipeline finishes without an envelope, so neither the record builder nor
/// the signer is reached: an unknown key is a `CredentialError`, another
/// structured answer keeps its `RpcProtocolError` kind, and an unreachable
/// node is a `TransportError`.
pub fn continue_after_access_key(pending: PendingSubmission, outcome: AccessKeyOutcome) -> (r:
    SubmissionStep)
    ensures
        match outcome {
            AccessKeyOutcome::Known { nonce, block_hash } => {
                match r {
                    SubmissionStep::Broadcast { envelope } => {
                        &&& spec_inputs_buildable(pending, nonce, block_hash@)
                        &&& spec_key_usable(pending)
                        &&& envelope.record.signer_id@ == pending.signer_id@
                        &&& envelope.record.public_key.tag == pending.public_key.tag
                        &&& envelope.record.public_key.data@ == pending.public_key.data@
                        &&& envelope.record.nonce == nonce + 1
                        &&& envelope.record.receiver_id@ == pending.contract_id@
                        &&& envelope.record.block_hash@ == block_hash@
                        &&& envelope.record.actions@.len() == 1
                        &&& envelope.record.actions@[0].method_name@ == pending.method_name@
                        &&& envelope.record.actions@[0].args@ == pending.args@
                        &&& envelope.record.actions@[0].gas == pending.gas
                        &&& envelope.record.actions@[0].deposit == pending.deposit
                        &&& spec_sig_verifies(
                            envelope.signature@,
                            spec_record_digest(envelope.record),
                            (pending.public_key.tag, pending.public_key.data@),
                        )
                    },
                    SubmissionStep::Finished { result } => {
                        &&& result is Err
                        &&& (!spec_inputs_buildable(pending, nonce, block_hash@)
                            || !spec_key_usable(pending))
                    },
                    SubmissionStep::QueryAccessKey { .. } => false,
                }
            },
            AccessKeyOutcome::UnknownKey { detail } => {
                match r {
                    SubmissionStep::Finished { result } => {
                        &&& result is Err
                        &&& result.unwrap_err() is CredentialError
                        &&& result.unwrap_err().spec_detail()@ == detail@
                    },
                    _ => false,
                }
            },
            AccessKeyOutcome::ProtocolError { detail } => {
                match r {
                    SubmissionStep::Finished { result } => {
                        &&& result is Err
                        &&& result.unwrap_err() is RpcProtocolError
                        &&& result.unwrap_err().spec_detail()@ == detail@
                    },
                    _ => false,
                }
            },
            AccessKeyOutcome::TransportError { detail } => {
                match r {
                    SubmissionStep::Finished { result } => {
                        &&& result is Err
                        &&& result.unwrap_err() is TransportError
                        &&& result.unwrap_err().spec_detail()@ == detail@
                    },
                    _ => false,
                }
            },
        },
{
    match outcome {
        AccessKeyOutcome::Known { nonce, block_hash } => {
            let state = AccessKeyState { nonce, block_hash };
            let record = match build_transaction_record(
                pending.signer_id,
                pending.public_key,
                &state,
                pending.contract_id,
                pending.method_name,
                pending.args,
                pending.gas,
                pending.deposit,
            ) {
                Ok(rec) => rec,
                Err(e) => {
                    return SubmissionStep::Finished { result: Err(e) };
                },
            };
            match sign_record(record, pending.private_key.as_str()) {
                Ok(envelope) => SubmissionStep::Broadcast { envelope },
                Err(e) => SubmissionStep::Finished { result: Err(e) },
            }
        },
        AccessKeyOutcome::UnknownKey { detail } => SubmissionStep::Finished {
            result: Err(PipelineError::CredentialError { detail }),
        },
        AccessKeyOutcome::ProtocolError { detail } => SubmissionStep::Finished {
            result: Err(PipelineError::RpcProtocolError { detail }),
        },
        AccessKeyOutcome::TransportError { detail } => SubmissionStep::Finished {
            result: Err(PipelineError::TransportError { detail }),
        },
    }
}

/// Classifies the node's terminal answer to the broadcast.
///
/// Exactly a finalized, successful execution is a success. A refusal to
/// apply the transaction — a stale nonce among them — is always
/// `RejectedBeforeExecution`, never `ExecutionFailure` and never a silent
/// success; of two submissions racing on the same nonce, the node applies
/// at most one, and the loser's answer lands in that variant.
pub fn continue_after_broadcast(outcome: BroadcastOutcome) -> (r: Result<
    SubmissionSuccess,
    PipelineError,
>)
    ensures
        match outcome {
            BroadcastOutcome::Succeeded { transaction_id } => {
                &&& r is Ok
                &&& r.unwrap().transaction_id@ == transaction_id@
            },
            BroadcastOutcome::ExecutionFailed { transaction_id, reason } => {
                &&& r is Err
                &&& r.unwrap_err() is ExecutionFailure
                &&& r.unwrap_err().spec_detail()@ == reason@
            },
            BroadcastOutcome::Rejected { reason } => {
                &&& r is Err
                &&& r.unwrap_err() is RejectedBeforeExecution
                &&& r.unwrap_err().spec_detail()@ == reason@
            },
            BroadcastOutcome::ProtocolError { detail } => {
                &&& r is Err
                &&& r.unwrap_err() is RpcProtocolError
                &&& r.unwrap_err().spec_detail()@ == detail@
            },
            BroadcastOutcome::TransportError { detail } => {
                &&& r is Err
                &&& r.unwrap_err() is TransportError
                &&& r.unwrap_err().spec_detail()@ == detail@
            },
        },
{
    match outcome {
        BroadcastOutcome::Succeeded { transaction_id } => Ok(SubmissionSuccess { transaction_id }),
        BroadcastOutcome::ExecutionFailed { transaction_id: _, reason } => Err(
            PipelineError::ExecutionFailure { detail: reason },
        ),
        BroadcastOutcome::Rejected { reason } => Err(
            PipelineError::RejectedBeforeExecution { detail: reason },
        ),
        BroadcastOutcome::ProtocolError { detail } => Err(
            PipelineError::RpcProtocolError { detail },
        ),
        BroadcastOutcome::TransportError { detail } => Err(
            PipelineError::TransportError { detail },
        ),
    }
}

} // verus!
