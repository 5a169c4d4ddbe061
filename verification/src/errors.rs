//! The closed set of failures a submission or a view query can end in.

use vstd::prelude::*;

verus! {

/// One typed error per stage of the pipeline. Every failure aborts the
/// pipeline and surfaces exactly one of these to the caller.
#[derive(Debug)]
pub enum PipelineError {
    /// The static configuration document is malformed or lacks the
    /// selected network's section.
    ConfigError { detail: String },
    /// Key material is missing or invalid, or the node knows no such key.
    CredentialError { detail: String },
    /// The node could not be reached, or the connection timed out.
    TransportError { detail: String },
    /// The node answered with a structured error or an unusable reply.
    RpcProtocolError { detail: String },
    /// The record cannot be canonically encoded.
    SerializationError { detail: String },
    /// No signature could be produced, or it failed self-verification.
    SigningError { detail: String },
    /// The node accepted the request but refused to apply the transaction
    /// (most commonly a stale nonce); re-running the whole pipeline is the
    /// documented recovery.
    RejectedBeforeExecution { detail: String },
    /// The target method itself failed during execution.
    ExecutionFailure { detail: String },
}

impl PipelineError {
    /// The stage label of this error, for display.
    pub fn kind_label(&self) -> (r: &'static str)
        ensures
            r@ == self.spec_kind_label(),
    {
        match self {
            PipelineError::ConfigError { .. } => "config error",
            PipelineError::CredentialError { .. } => "credential error",
            PipelineError::TransportError { .. } => "transport error",
            PipelineError::RpcProtocolError { .. } => "rpc protocol error",
            PipelineError::SerializationError { .. } => "serialization error",
            PipelineError::SigningError { .. } => "signing error",
            PipelineError::RejectedBeforeExecution { .. } => "rejected before execution",
            PipelineError::ExecutionFailure { .. } => "execution failure",
        }
    }

    /// What `kind_label` returns for each variant.
    pub open spec fn spec_kind_label(&self) -> Seq<char> {
        match self {
            PipelineError::ConfigError { .. } => "config error"@,
            PipelineError::CredentialError { .. } => "credential error"@,
            PipelineError::TransportError { .. } => "transport error"@,
            PipelineError::RpcProtocolError { .. } => "rpc protocol error"@,
            PipelineError::SerializationError { .. } => "serialization error"@,
            PipelineError::SigningError { .. } => "signing error"@,
            PipelineError::RejectedBeforeExecution { .. } => "rejected before execution"@,
            PipelineError::ExecutionFailure { .. } => "execution failure"@,
        }
    }

    /// The free-form cause carried by this error.
    pub fn detail(&self) -> (r: &String)
        ensures
            r == self.spec_detail(),
    {
        match self {
            PipelineError::ConfigError { detail } => detail,
            PipelineError::CredentialError { detail } => detail,
            PipelineError::TransportError { detail } => detail,
            PipelineError::RpcProtocolError { detail } => detail,
            PipelineError::SerializationError { detail } => detail,
            PipelineError::SigningError { detail } => detail,
            PipelineError::RejectedBeforeExecution { detail } => detail,
            PipelineError::ExecutionFailure { detail } => detail,
        }
    }

    /// The detail field, uniformly over the variants.
    pub open spec fn spec_detail(&self) -> String {
        match self {
            PipelineError::ConfigError { detail } => *detail,
            PipelineError::CredentialError { detail } => *detail,
            PipelineError::TransportError { detail } => *detail,
            PipelineError::RpcProtocolError { detail } => *detail,
            PipelineError::SerializationError { detail } => *detail,
            PipelineError::SigningError { detail } => *detail,
            PipelineError::RejectedBeforeExecution { detail } => *detail,
            PipelineError::ExecutionFailure { detail } => *detail,
        }
    }
}

} // verus!
