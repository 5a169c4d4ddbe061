//! The unsigned transaction record and its builder.

use vstd::prelude::*;
use vstd::string::StringSliceAdditionalSpecFns;
use crate::account::valid_account_id;
use crate::account::check_account_id;
use crate::errors::PipelineError;

verus! {

/// Gas attached to the one function-call action: a fixed policy constant
/// of thirty teragas.
pub const DEFAULT_FUNCTION_CALL_GAS: u64 = 30_000_000_000_000;

/// Value attached to the one function-call action: none.
pub const ZERO_DEPOSIT: u128 = 0;

/// Largest length a string or byte field may have under the canonical
/// encoding, whose length prefixes are 32 bits.
pub const MAX_FIELD_LEN: u64 = 0xffff_ffff;

/// A signer's public key, already decoded from its textual form: a scheme
/// tag byte and the raw key bytes.
#[derive(Debug)]
pub struct PublicKeyData {
    /// The scheme: 0 for ed25519, 1 for secp256k1, 2 for ml-dsa-65.
    pub tag: u8,
    /// The raw key bytes; their length is fixed by the scheme.
    pub data: Vec<u8>,
}

impl PublicKeyData {
    /// The tag is a known scheme and the data has that scheme's length.
    pub open spec fn wf(self) -> bool {
        ||| (self.tag == 0 && self.data@.len() == 32)
        ||| (self.tag == 1 && self.data@.len() == 64)
        ||| (self.tag == 2 && self.data@.len() == 1952)
    }

    /// Decides `wf`.
    pub fn check_wf(&self) -> (r: bool)
        ensures
            r == self.wf(),
    {
        (self.tag == 0 && self.data.len() == 32) || (self.tag == 1 && self.data.len() == 64) || (
        self.tag == 2 && self.data.len() == 1952)
    }
}

/// One invocation intent: a named method on the receiving program, with
/// JSON argument bytes, a gas budget and an attached deposit.
#[derive(Debug)]
pub struct FunctionCallAction {
    pub method_name: String,
    pub args: Vec<u8>,
    pub gas: u64,
    pub deposit: u128,
}

impl FunctionCallAction {
    /// Both variable-length fields fit a 32-bit length prefix.
    pub open spec fn wf(self) -> bool {
        &&& vstd::utf8::encode_utf8(self.method_name@).len() <= MAX_FIELD_LEN
        &&& self.args@.len() <= MAX_FIELD_LEN
    }
}

/// The signer's current sequence position: the nonce the node reported for
/// the access key, together with the hash of the finalized block the answer
/// was anchored to. The two always come from the same query.
#[derive(Debug)]
pub struct AccessKeyState {
    pub nonce: u64,
    pub block_hash: Vec<u8>,
}

/// An unsigned intent to execute the listed actions, bound to one signer,
/// one receiver, one nonce and one recent block.
#[derive(Debug)]
pub struct TransactionRecord {
    pub signer_id: String,
    pub public_key: PublicKeyData,
    pub nonce: u64,
    pub receiver_id: String,
    pub block_hash: Vec<u8>,
    pub actions: Vec<FunctionCallAction>,
}

impl TransactionRecord {
    /// Everything the canonical encoding relies on: valid account ids, a
    /// well-formed key, a 32-byte anchor, and a non-empty action list whose
    /// entries fit their length prefixes.
    pub open spec fn wf(self) -> bool {
        &&& valid_account_id(vstd::utf8::encode_utf8(self.signer_id@))
        &&& valid_account_id(vstd::utf8::encode_utf8(self.receiver_id@))
        &&& self.public_key.wf()
        &&& self.block_hash@.len() == 32
        &&& 1 <= self.actions@.len() <= MAX_FIELD_LEN
        &&& forall|i: int| 0 <= i < self.actions@.len() ==> (#[trigger] self.actions@[i]).wf()
    }
}

/// Assembles the canonical transaction record for one function call.
///
/// The nonce of the built record is the strict successor of the nonce the
/// access-key query reported. Fails, and says with which error, exactly when
/// an input cannot appear in a well-formed record.
pub fn build_transaction_record(
    signer_id: String,
    public_key: PublicKeyData,
    state: &AccessKeyState,
    receiver_id: String,
    method_name: String,
    args: Vec<u8>,
    gas: u64,
    deposit: u128,
) -> (r: Result<TransactionRecord, PipelineError>)
    ensures
        match r {
            Ok(rec) => {
                &&& valid_account_id(vstd::utf8::encode_utf8(signer_id@))
                &&& public_key.wf()
                &&& valid_account_id(vstd::utf8::encode_utf8(receiver_id@))
                &&& state.block_hash@.len() == 32
                &&& state.nonce < u64::MAX
                &&& vstd::utf8::encode_utf8(method_name@).len() <= MAX_FIELD_LEN
                &&& args@.len() <= MAX_FIELD_LEN
                &&& rec.signer_id@ == signer_id@
                &&& rec.public_key.tag == public_key.tag
                &&& rec.public_key.data@ == public_key.data@
                &&& rec.nonce == state.nonce + 1
                &&& rec.receiver_id@ == receiver_id@
                &&& rec.block_hash@ == state.block_hash@
                &&& rec.actions@.len() == 1
                &&& rec.actions@[0].method_name@ == method_name@
                &&& rec.actions@[0].args@ == args@
                &&& rec.actions@[0].gas == gas
                &&& rec.actions@[0].deposit == deposit
                &&& rec.wf()
            },
            Err(e) => {
                if !valid_account_id(vstd::utf8::encode_utf8(signer_id@)) {
                    e is CredentialError
                } else if !public_key.wf() {
                    e is CredentialError
                } else if !valid_account_id(vstd::utf8::encode_utf8(receiver_id@)) {
                    e is ConfigError
                } else if state.block_hash@.len() != 32 {
                    e is RpcProtocolError
                } else if state.nonce == u64::MAX {
                    e is RpcProtocolError
                } else if vstd::utf8::encode_utf8(method_name@).len() > MAX_FIELD_LEN {
                    e is SerializationError
                } else {
                    args@.len() > MAX_FIELD_LEN && e is SerializationError
                }
            },
        },
{
    if !check_account_id(signer_id.as_str()) {
        return Err(
            PipelineError::CredentialError {
                detail: "the signer's account id is not a valid account id".to_owned(),
            },
        );
    }
    if !public_key.check_wf() {
        return Err(
            PipelineError::CredentialError {
                detail: "the signer's public key has an unknown scheme or a wrong length".to_owned(),
            },
        );
    }
    if !check_account_id(receiver_id.as_str()) {
        return Err(
            PipelineError::ConfigError {
                detail: "the configured program id is not a valid account id".to_owned(),
            },
        );
    }
    if state.block_hash.len() != 32 {
        return Err(
            PipelineError::RpcProtocolError {
                detail: "the anchor block hash is not 32 bytes".to_owned(),
            },
        );
    }
    if state.nonce == u64::MAX {
        return Err(
            PipelineError::RpcProtocolError {
                detail: "the reported nonce admits no successor".to_owned(),
            },
        );
    }
    if method_name.as_str().as_bytes().len() as u64 > MAX_FIELD_LEN {
        return Err(
            PipelineError::SerializationError {
                detail: "the method name does not fit its length prefix".to_owned(),
            },
        );
    }
    if args.len() as u64 > MAX_FIELD_LEN {
        return Err(
            PipelineError::SerializationError {
                detail: "the argument bytes do not fit their length prefix".to_owned(),
            },
        );
    }
    let action = FunctionCallAction { method_name, args, gas, deposit };
    let mut actions: Vec<FunctionCallAction> = Vec::new();
    actions.push(action);
    let mut block_hash: Vec<u8> = Vec::new();
    let mut i: usize = 0;
    while i < state.block_hash.len()
        invariant
            0 <= i <= state.block_hash@.len(),
            block_hash@ == state.block_hash@.take(i as int),
        decreases state.block_hash@.len() - i,
    {
        block_hash.push(state.block_hash[i]);
        assert(block_hash@ =~= state.block_hash@.take(i + 1));
        i = i + 1;
    }
    assert(block_hash@ =~= state.block_hash@);
    let rec = TransactionRecord {
        signer_id,
        public_key,
        nonce: state.nonce + 1,
        receiver_id,
        block_hash,
        actions,
    };
    proof {
        assert(forall|i: int| 0 <= i < rec.actions@.len() ==> (#[trigger] rec.actions@[i]).wf());
    }
    Ok(rec)
}

} // verus!
