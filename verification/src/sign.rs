//! Hashing, signing and self-verification of a transaction record.
//!
//! The canonical bytes of the record are hashed, the hash is signed with the
//! signer's private key, and the resulting signature is checked against the
//! signer's declared public key before the envelope leaves this module. The
//! hash and the asymmetric schemes themselves come from outside crates and
//! are relied on through the trusted items below.

use vstd::prelude::*;
use crate::account::check_account_id;
use crate::encode::encode_record;
use crate::encode::spec_encode_record;
use crate::errors::PipelineError;
use crate::transaction::MAX_FIELD_LEN;
use crate::transaction::TransactionRecord;

verus! {

/// The SHA-256 digest of a byte sequence.
pub uninterp spec fn spec_sha256(data: Seq<u8>) -> Seq<u8>;

/// Relies on near_primitives::hash::hash: the SHA-256 digest of the input,
/// 32 bytes, a function of the input alone.
#[verifier::external_body]
pub(crate) fn sha256_digest(data: &[u8]) -> (r: Vec<u8>)
    ensures
        r@ == spec_sha256(data@),
        r@.len() == 32,
{
    near_primitives::hash::hash(data).0.to_vec()
}

/// The scheme tag and raw key bytes a textual public key decodes to, or
/// `None` where the text is not a valid public key.
pub uninterp spec fn spec_decoded_public_key(s: Seq<char>) -> Option<(u8, Seq<u8>)>;

/// Relies on near_crypto::PublicKey::from_str, key_type and key_data: the
/// text parses exactly when it is a known scheme prefix with key data of
/// that scheme's length in base-58, and the result is a function of the
/// text alone. Tag 0 carries 32 bytes, tag 1 carries 64, tag 2 carries 1952.
#[verifier::external_body]
pub(crate) fn decode_public_key(s: &str) -> (r: Option<(u8, Vec<u8>)>)
    ensures
        r is Some <==> spec_decoded_public_key(s@) is Some,
        r is Some ==> (r.unwrap().0, r.unwrap().1@) == spec_decoded_public_key(s@).unwrap(),
        r is Some ==> ((r.unwrap().0 == 0 && r.unwrap().1@.len() == 32) || (r.unwrap().0 == 1
            && r.unwrap().1@.len() == 64) || (r.unwrap().0 == 2 && r.unwrap().1@.len() == 1952)),
{
    let pk: near_crypto::PublicKey = match s.parse() {
        Ok(k) => k,
        Err(_) => return None,
    };
    Some((pk.key_type() as u8, pk.key_data().to_vec()))
}

/// The scheme tag and raw bytes of the public key that belongs to a textual
/// secret key, or `None` where the text is not a valid secret key.
pub uninterp spec fn spec_secret_public_key(s: Seq<char>) -> Option<(u8, Seq<u8>)>;

/// Relies on near_crypto::SecretKey::from_str and public_key: the public
/// counterpart of the secret key, a function of the text alone, with the
/// same tag-to-length rule as a decoded public key.
#[verifier::external_body]
pub(crate) fn public_key_of_secret(key: &str) -> (r: Option<(u8, Vec<u8>)>)
    ensures
        r is Some <==> spec_secret_public_key(key@) is Some,
        r is Some ==> (r.unwrap().0, r.unwrap().1@) == spec_secret_public_key(key@).unwrap(),
        r is Some ==> ((r.unwrap().0 == 0 && r.unwrap().1@.len() == 32) || (r.unwrap().0 == 1
            && r.unwrap().1@.len() == 64) || (r.unwrap().0 == 2 && r.unwrap().1@.len() == 1952)),
{
    let sk: near_crypto::SecretKey = match key.parse() {
        Ok(k) => k,
        Err(_) => return None,
    };
    let pk = sk.public_key();
    Some((pk.key_type() as u8, pk.key_data().to_vec()))
}

/// Whether a textual secret key can sign: it parses, and an ed25519 key
/// additionally holds an internally consistent keypair blob.
pub uninterp spec fn spec_signing_key_wf(s: Seq<char>) -> bool;

/// Whether a signature over a message verifies under a public key given as
/// scheme tag and raw bytes.
pub uninterp spec fn spec_sig_verifies(sig: Seq<u8>, msg: Seq<u8>, pk: (u8, Seq<u8>)) -> bool;

/// Relies on near_crypto::SecretKey::from_str and sign, and on
/// ed25519_dalek::SigningKey::from_keypair_bytes to reject the ed25519 key
/// blobs on which near_crypto's sign would not return. A produced signature
/// verifies under the secret key's public counterpart; nothing more is
/// claimed of its bytes, since ML-DSA signing is randomized.
#[verifier::external_body]
pub(crate) fn sign_digest(key: &str, digest: &[u8]) -> (r: Option<Vec<u8>>)
    requires
        digest@.len() == 32,
    ensures
        r is Some <==> spec_signing_key_wf(key@),
        r is Some ==> spec_secret_public_key(key@) is Some,
        r is Some ==> spec_sig_verifies(
            r.unwrap()@,
            digest@,
            spec_secret_public_key(key@).unwrap(),
        ),
{
    let sk: near_crypto::SecretKey = key.parse().ok()?;
    if let near_crypto::SecretKey::ED25519(raw) = &sk {
        if ed25519_dalek::SigningKey::from_keypair_bytes(&raw.0).is_err() {
            return None;
        }
    }
    Some(
        match sk.sign(digest) {
            near_crypto::Signature::ED25519(s) => s.to_bytes().to_vec(),
            near_crypto::Signature::SECP256K1(s) => <[u8; 65]>::from(s).to_vec(),
            near_crypto::Signature::MLDSA65(s) => s.0.to_vec(),
        },
    )
}

/// Relies on near_crypto::PublicKey's borsh deserialization (a scheme tag
/// byte before raw bytes of that scheme's length), Signature::from_parts and
/// Signature::verify: whether the signature verifies under the given public
/// key, a function of the three arguments alone. A tag or length that fits
/// no scheme verifies nothing.
#[verifier::external_body]
pub(crate) fn verify_signature(sig: &[u8], msg: &[u8], pk_tag: u8, pk_data: &[u8]) -> (r: bool)
    ensures
        r == spec_sig_verifies(sig@, msg@, (pk_tag, pk_data@)),
{
    let mut buf: Vec<u8> = Vec::with_capacity(1 + pk_data.len());
    buf.push(pk_tag);
    buf.extend_from_slice(pk_data);
    let pk: near_crypto::PublicKey = match borsh::from_slice(&buf) {
        Ok(p) => p,
        Err(_) => return false,
    };
    let s = match near_crypto::Signature::from_parts(pk.key_type(), sig) {
        Ok(s) => s,
        Err(_) => return false,
    };
    s.verify(msg, &pk)
}

/// The digest that is signed: the SHA-256 hash of the record's canonical
/// bytes.
pub open spec fn spec_record_digest(r: TransactionRecord) -> Seq<u8> {
    spec_sha256(spec_encode_record(r))
}

/// A transaction record together with a signature over the hash of its
/// canonical bytes. The record is never mutated after signing.
#[derive(Debug)]
pub struct SignedEnvelope {
    pub record: TransactionRecord,
    pub signature: Vec<u8>,
}

/// Decides `TransactionRecord::wf`.
pub fn check_record_wf(r: &TransactionRecord) -> (ok: bool)
    ensures
        ok == r.wf(),
{
    if !check_account_id(r.signer_id.as_str()) {
        return false;
    }
    if !check_account_id(r.receiver_id.as_str()) {
        return false;
    }
    if !r.public_key.check_wf() {
        return false;
    }
    if r.block_hash.len() != 32 {
        return false;
    }
    let n = r.actions.len();
    if n < 1 || n as u64 > MAX_FIELD_LEN {
        return false;
    }
    let mut i: usize = 0;
    while i < n
        invariant
            n == r.actions@.len(),
            0 <= i <= n,
            forall|j: int| 0 <= j < i ==> (#[trigger] r.actions@[j]).wf(),
        decreases n - i,
    {
        let a = &r.actions[i];
        if a.method_name.as_str().as_bytes().len() as u64 > MAX_FIELD_LEN {
            return false;
        }
        if a.args.len() as u64 > MAX_FIELD_LEN {
            return false;
        }
        i = i + 1;
    }
    true
}

/// Serializes, hashes and signs the record, and checks the signature
/// against the record's declared public key before handing out the
/// envelope.
///
/// Succeeds exactly when the record is well-formed, the private key can
/// sign, and its public counterpart is the record's declared key; the
/// envelope's signature then verifies against that key and the hash of the
/// record's canonical bytes.
pub fn sign_record(record: TransactionRecord, private_key: &str) -> (r: Result<
    SignedEnvelope,
    PipelineError,
>)
    ensures
        match r {
            Ok(env) => {
                &&& env.record == record
                &&& record.wf()
                &&& spec_signing_key_wf(private_key@)
                &&& spec_secret_public_key(private_key@) == Some(
                    (record.public_key.tag, record.public_key.data@),
                )
                &&& spec_sig_verifies(
                    env.signature@,
                    spec_record_digest(record),
                    (record.public_key.tag, record.public_key.data@),
                )
            },
            Err(e) => {
                if !record.wf() {
                    e is SerializationError
                } else if !spec_signing_key_wf(private_key@) {
                    e is SigningError
                } else {
                    spec_secret_public_key(private_key@) != Some(
                        (record.public_key.tag, record.public_key.data@),
                    ) && e is SigningError
                }
            },
        },
{
    if !check_record_wf(&record) {
        return Err(
            PipelineError::SerializationError {
                detail: "the record cannot be canonically encoded".to_owned(),
            },
        );
    }
    let bytes = encode_record(&record);
    let digest = sha256_digest(bytes.as_slice());
    let pk_of_key = match public_key_of_secret(private_key) {
        Some(p) => p,
        None => {
            return Err(
                PipelineError::SigningError {
                    detail: "the private key is malformed".to_owned(),
                },
            );
        },
    };
    let (tag, data) = pk_of_key;
    let matches = tag == record.public_key.tag && crate::compare::eq_byte_slices(
        data.as_slice(),
        record.public_key.data.as_slice(),
    );
    if !matches {
        return Err(
            PipelineError::SigningError {
                detail: "the private key does not correspond to the signer's public key".to_owned(),
            },
        );
    }
    let signature = match sign_digest(private_key, digest.as_slice()) {
        Some(s) => s,
        None => {
            return Err(
                PipelineError::SigningError {
                    detail: "the private key cannot sign".to_owned(),
                },
            );
        },
    };
    if !verify_signature(
        signature.as_slice(),
        digest.as_slice(),
        record.public_key.tag,
        record.public_key.data.as_slice(),
    ) {
        return Err(
            PipelineError::SigningError {
                detail: "the signature failed self-verification".to_owned(),
            },
        );
    }
    Ok(SignedEnvelope { record, signature })
}

} // verus!
