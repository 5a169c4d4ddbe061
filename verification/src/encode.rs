//! Canonical binary serialization of the transaction record.
//!
//! The encoding is the fixed wire format the remote node expects for an
//! unsigned transaction: little-endian integers, 32-bit length prefixes on
//! strings and byte arrays, a one-byte scheme tag before raw key bytes, and
//! a one-byte kind tag before each action. `spec_encode_record` states the
//! bytes exactly; `encode_record` produces them, so re-serializing the same
//! logical record always yields byte-identical output.

use vstd::prelude::*;
use vstd::string::StringSliceAdditionalSpecFns;
use vstd::utf8::encode_utf8;
use crate::transaction::FunctionCallAction;
use crate::transaction::TransactionRecord;

verus! {

/// The little-endian bytes of a 32-bit integer.
pub open spec fn u32_le_bytes(n: u32) -> Seq<u8> {
    seq![
        (n % 256) as u8,
        ((n / 256) % 256) as u8,
        ((n / 0x10000) % 256) as u8,
        ((n / 0x1000000) % 256) as u8,
    ]
}

/// The little-endian bytes of a 64-bit integer.
pub open spec fn u64_le_bytes(n: u64) -> Seq<u8> {
    seq![
        (n % 256) as u8,
        ((n / 0x100) % 256) as u8,
        ((n / 0x10000) % 256) as u8,
        ((n / 0x1000000) % 256) as u8,
        ((n / 0x100000000) % 256) as u8,
        ((n / 0x10000000000) % 256) as u8,
        ((n / 0x1000000000000) % 256) as u8,
        ((n / 0x100000000000000) % 256) as u8,
    ]
}

/// The little-endian bytes of a 128-bit integer: the bytes of its low and
/// of its high 64-bit half.
pub open spec fn u128_le_bytes(n: u128) -> Seq<u8> {
    u64_le_bytes((n % 0x10000000000000000) as u64) + u64_le_bytes(
        (n / 0x10000000000000000) as u64,
    )
}

/// A byte sequence under its 32-bit length prefix. Meaningful when the
/// length fits the prefix.
pub open spec fn spec_encode_bytes(b: Seq<u8>) -> Seq<u8> {
    u32_le_bytes(b.len() as u32) + b
}

/// A string under its 32-bit length prefix: the prefixed UTF-8 bytes.
pub open spec fn spec_encode_str(s: Seq<char>) -> Seq<u8> {
    spec_encode_bytes(encode_utf8(s))
}

/// One function-call action: its kind tag, then method name, argument
/// bytes, gas and deposit.
#[verifier::opaque]
pub open spec fn spec_encode_action(a: FunctionCallAction) -> Seq<u8> {
    seq![2u8] + spec_encode_str(a.method_name@) + spec_encode_bytes(a.args@) + u64_le_bytes(a.gas)
        + u128_le_bytes(a.deposit)
}

/// A list of actions, one encoding after the other.
pub open spec fn spec_encode_actions(actions: Seq<FunctionCallAction>) -> Seq<u8>
    decreases actions.len(),
{
    if actions.len() == 0 {
        seq![]
    } else {
        spec_encode_action(actions[0]) + spec_encode_actions(actions.drop_first())
    }
}

/// Appending one action to a list appends its encoding.
proof fn lemma_encode_actions_snoc(actions: Seq<FunctionCallAction>, a: FunctionCallAction)
    ensures
        spec_encode_actions(actions.push(a)) == spec_encode_actions(actions) + spec_encode_action(
            a,
        ),
    decreases actions.len(),
{
    if actions.len() == 0 {
        assert(actions.push(a).len() == 1);
        assert(actions.push(a)[0] == a);
        assert(actions.push(a).drop_first() =~= Seq::<FunctionCallAction>::empty());
        assert(spec_encode_actions(Seq::<FunctionCallAction>::empty()) == Seq::<u8>::empty());
        assert(spec_encode_actions(actions.push(a)) == spec_encode_action(a) + Seq::<u8>::empty());
        assert(spec_encode_action(a) + Seq::<u8>::empty() =~= spec_encode_action(a));
        assert(spec_encode_actions(actions) == Seq::<u8>::empty());
        assert(Seq::<u8>::empty() + spec_encode_action(a) =~= spec_encode_action(a));
    } else {
        assert(actions.push(a).drop_first() =~= actions.drop_first().push(a));
        lemma_encode_actions_snoc(actions.drop_first(), a);
        assert(actions.push(a)[0] == actions[0]);
        assert(spec_encode_actions(actions.push(a)) == spec_encode_action(actions[0]) + (
        spec_encode_actions(actions.drop_first()) + spec_encode_action(a)));
        assert(spec_encode_action(actions[0]) + (spec_encode_actions(actions.drop_first())
            + spec_encode_action(a)) =~= (spec_encode_action(actions[0]) + spec_encode_actions(
            actions.drop_first(),
        )) + spec_encode_action(a));
    }
}

/// The canonical bytes of an unsigned transaction record.
pub open spec fn spec_encode_record(r: TransactionRecord) -> Seq<u8> {
    spec_encode_str(r.signer_id@) + seq![r.public_key.tag] + r.public_key.data@ + u64_le_bytes(
        r.nonce,
    ) + spec_encode_str(r.receiver_id@) + r.block_hash@ + u32_le_bytes(r.actions@.len() as u32)
        + spec_encode_actions(r.actions@)
}

/// Serializing is a function of the logical record alone: equal records
/// give byte-identical encodings, however often they are serialized.
pub proof fn lemma_encoding_deterministic(a: TransactionRecord, b: TransactionRecord)
    requires
        a == b,
    ensures
        spec_encode_record(a) == spec_encode_record(b),
{
}

/// Appends the bytes of a slice.
fn push_slice(out: &mut Vec<u8>, b: &[u8])
    ensures
        final(out)@ == old(out)@ + b@,
{
    let n = b.len();
    let mut i: usize = 0;
    while i < n
        invariant
            n == b@.len(),
            0 <= i <= n,
            out@ == old(out)@ + b@.take(i as int),
        decreases n - i,
    {
        out.push(b[i]);
        assert(out@ =~= old(out)@ + b@.take(i + 1));
        i = i + 1;
    }
    assert(out@ =~= old(out)@ + b@);
}

/// Appends a 32-bit integer in little-endian order.
fn push_u32_le(out: &mut Vec<u8>, n: u32)
    ensures
        final(out)@ == old(out)@ + u32_le_bytes(n),
{
    out.push((n % 256) as u8);
    out.push(((n / 256) % 256) as u8);
    out.push(((n / 0x10000) % 256) as u8);
    out.push(((n / 0x1000000) % 256) as u8);
    assert(out@ =~= old(out)@ + u32_le_bytes(n));
}

/// Appends a 64-bit integer in little-endian order.
fn push_u64_le(out: &mut Vec<u8>, n: u64)
    ensures
        final(out)@ == old(out)@ + u64_le_bytes(n),
{
    out.push((n % 256) as u8);
    out.push(((n / 0x100) % 256) as u8);
    out.push(((n / 0x10000) % 256) as u8);
    out.push(((n / 0x1000000) % 256) as u8);
    out.push(((n / 0x100000000) % 256) as u8);
    out.push(((n / 0x10000000000) % 256) as u8);
    out.push(((n / 0x1000000000000) % 256) as u8);
    out.push(((n / 0x100000000000000) % 256) as u8);
    assert(out@ =~= old(out)@ + u64_le_bytes(n));
}

/// Appends a 128-bit integer in little-endian order.
fn push_u128_le(out: &mut Vec<u8>, n: u128)
    ensures
        final(out)@ == old(out)@ + u128_le_bytes(n),
{
    let low = (n % 0x10000000000000000) as u64;
    let high = (n / 0x10000000000000000) as u64;
    push_u64_le(out, low);
    push_u64_le(out, high);
    assert(out@ =~= old(out)@ + u128_le_bytes(n));
}

/// Appends a byte slice under its 32-bit length prefix.
fn push_bytes_with_len(out: &mut Vec<u8>, b: &[u8])
    requires
        b@.len() <= 0xffff_ffff,
    ensures
        final(out)@ == old(out)@ + spec_encode_bytes(b@),
{
    let len = b.len();
    push_u32_le(out, len as u32);
    push_slice(out, b);
    assert(out@ =~= old(out)@ + spec_encode_bytes(b@));
}

/// Appends a string under its 32-bit length prefix.
fn push_str_with_len(out: &mut Vec<u8>, s: &str)
    requires
        encode_utf8(s@).len() <= 0xffff_ffff,
    ensures
        final(out)@ == old(out)@ + spec_encode_str(s@),
{
    push_bytes_with_len(out, s.as_bytes());
}

/// Appends the encoding of one action.
fn push_action(out: &mut Vec<u8>, a: &FunctionCallAction)
    requires
        a.wf(),
    ensures
        final(out)@ == old(out)@ + spec_encode_action(*a),
{
    out.push(2u8);
    push_str_with_len(out, a.method_name.as_str());
    push_bytes_with_len(out, a.args.as_slice());
    push_u64_le(out, a.gas);
    push_u128_le(out, a.deposit);
    proof {
        reveal(spec_encode_action);
        assert(out@ =~= old(out)@ + spec_encode_action(*a));
    }
}

/// Serializes a well-formed record into its canonical bytes.
pub fn encode_record(r: &TransactionRecord) -> (out: Vec<u8>)
    requires
        r.wf(),
    ensures
        out@ == spec_encode_record(*r),
{
    let mut out: Vec<u8> = Vec::new();
    push_str_with_len(&mut out, r.signer_id.as_str());
    out.push(r.public_key.tag);
    push_slice(&mut out, r.public_key.data.as_slice());
    push_u64_le(&mut out, r.nonce);
    push_str_with_len(&mut out, r.receiver_id.as_str());
    push_slice(&mut out, r.block_hash.as_slice());
    let n_actions = r.actions.len();
    push_u32_le(&mut out, n_actions as u32);
    let ghost prefix = out@;
    let mut i: usize = 0;
    while i < n_actions
        invariant
            n_actions == r.actions@.len(),
            0 <= i <= n_actions,
            forall|j: int| 0 <= j < n_actions ==> (#[trigger] r.actions@[j]).wf(),
            out@ == prefix + spec_encode_actions(r.actions@.take(i as int)),
        decreases n_actions - i,
    {
        push_action(&mut out, &r.actions[i]);
        proof {
            assert(r.actions@.take(i + 1) =~= r.actions@.take(i as int).push(r.actions@[i as int]));
            lemma_encode_actions_snoc(r.actions@.take(i as int), r.actions@[i as int]);
            assert(prefix + spec_encode_actions(r.actions@.take(i as int)) + spec_encode_action(
                r.actions@[i as int],
            ) =~= prefix + (spec_encode_actions(r.actions@.take(i as int)) + spec_encode_action(
                r.actions@[i as int],
            )));
        }
        i = i + 1;
    }
    proof {
        assert(r.actions@.take(n_actions as int) =~= r.actions@);
        assert(prefix =~= spec_encode_str(r.signer_id@) + seq![r.public_key.tag]
            + r.public_key.data@ + u64_le_bytes(r.nonce) + spec_encode_str(r.receiver_id@)
            + r.block_hash@ + u32_le_bytes(r.actions@.len() as u32));
        assert(out@ =~= spec_encode_record(*r));
    }
    out
}

} // verus!
