//! Building the greeting update's argument bytes and its display preview.
//!
//! The argument bytes are the canonical JSON object `{"greeting":"..."}`
//! with the value properly escaped, so they are always valid UTF-8 JSON.

use vstd::prelude::*;
use vstd::string::StringExecFns;
use vstd::utf8::encode_utf8;
use crate::config::Network;
use crate::config::NetworkConfig;

verus! {

/// The lower-case hex digit of a value below 16.
pub open spec fn spec_hex_digit(n: u8) -> u8 {
    if n < 10 {
        (48 + n) as u8
    } else {
        (87 + n) as u8
    }
}

/// How one byte of a string appears inside a JSON string literal: quotes
/// and backslashes are escaped, control bytes become `\u00XX`, and
/// everything else (including multi-byte UTF-8) passes through.
pub open spec fn spec_json_escape_byte(b: u8) -> Seq<u8> {
    if b == 34 {
        seq![92u8, 34u8]
    } else if b == 92 {
        seq![92u8, 92u8]
    } else if b < 32 {
        seq![92u8, 117u8, 48u8, 48u8, spec_hex_digit(b / 16), spec_hex_digit(b % 16)]
    } else {
        seq![b]
    }
}

/// A byte sequence escaped for use inside a JSON string literal.
pub open spec fn spec_json_escape(s: Seq<u8>) -> Seq<u8>
    decreases s.len(),
{
    if s.len() == 0 {
        seq![]
    } else {
        spec_json_escape_byte(s[0]) + spec_json_escape(s.drop_first())
    }
}

/// Appending one byte appends its escape.
proof fn lemma_json_escape_snoc(s: Seq<u8>, b: u8)
    ensures
        spec_json_escape(s.push(b)) == spec_json_escape(s) + spec_json_escape_byte(b),
    decreases s.len(),
{
    if s.len() == 0 {
        assert(s.push(b).len() == 1);
        assert(s.push(b)[0] == b);
        assert(s.push(b).drop_first() =~= Seq::<u8>::empty());
        assert(spec_json_escape(Seq::<u8>::empty()) == Seq::<u8>::empty());
        assert(spec_json_escape(s) == Seq::<u8>::empty());
        assert(spec_json_escape(s.push(b)) == spec_json_escape_byte(b) + Seq::<u8>::empty());
        assert(spec_json_escape_byte(b) + Seq::<u8>::empty() =~= Seq::<u8>::empty()
            + spec_json_escape_byte(b));
    } else {
        assert(s.push(b).drop_first() =~= s.drop_first().push(b));
        lemma_json_escape_snoc(s.drop_first(), b);
        assert(s.push(b)[0] == s[0]);
        assert(spec_json_escape_byte(s[0]) + (spec_json_escape(s.drop_first())
            + spec_json_escape_byte(b)) =~= (spec_json_escape_byte(s[0]) + spec_json_escape(
            s.drop_first(),
        )) + spec_json_escape_byte(b));
    }
}

/// Appends the escape of every byte of `s`.
fn push_json_escaped(out: &mut Vec<u8>, s: &[u8])
    ensures
        final(out)@ == old(out)@ + spec_json_escape(s@),
{
    let n = s.len();
    let mut i: usize = 0;
    while i < n
        invariant
            n == s@.len(),
            0 <= i <= n,
            out@ == old(out)@ + spec_json_escape(s@.take(i as int)),
        decreases n - i,
    {
        let b = s[i];
        if b == 34 {
            out.push(92);
            out.push(34);
        } else if b == 92 {
            out.push(92);
            out.push(92);
        } else if b < 32 {
            out.push(92);
            out.push(117);
            out.push(48);
            out.push(48);
            let hi = b / 16;
            let lo = b % 16;
            out.push(if hi < 10 {
                48 + hi
            } else {
                87 + hi
            });
            out.push(if lo < 10 {
                48 + lo
            } else {
                87 + lo
            });
        } else {
            out.push(b);
        }
        proof {
            assert(s@.take(i + 1) =~= s@.take(i as int).push(s@[i as int]));
            lemma_json_escape_snoc(s@.take(i as int), s@[i as int]);
            assert(out@ =~= old(out)@ + spec_json_escape(s@.take(i + 1)));
        }
        i = i + 1;
    }
    proof {
        assert(s@.take(n as int) =~= s@);
    }
}

/// The canonical JSON object with one string field: `{"key":"value"}`, both
/// parts escaped.
pub open spec fn spec_single_string_args(key: Seq<u8>, value: Seq<u8>) -> Seq<u8> {
    seq![123u8, 34u8] + spec_json_escape(key) + seq![34u8, 58u8, 34u8] + spec_json_escape(value)
        + seq![34u8, 125u8]
}

/// Encodes `{"key":"value"}` as argument bytes, escaping both parts.
pub fn encode_single_string_args(key: &str, value: &str) -> (r: Vec<u8>)
    ensures
        r@ == spec_single_string_args(encode_utf8(key@), encode_utf8(value@)),
{
    let mut out: Vec<u8> = Vec::new();
    out.push(123);
    out.push(34);
    push_json_escaped(&mut out, key.as_bytes());
    out.push(34);
    out.push(58);
    out.push(34);
    push_json_escaped(&mut out, value.as_bytes());
    out.push(34);
    out.push(125);
    proof {
        assert(out@ =~= spec_single_string_args(encode_utf8(key@), encode_utf8(value@)));
    }
    out
}

/// The argument bytes of one greeting update: `{"greeting":"..."}`.
pub fn greeting_args(greeting: &str) -> (r: Vec<u8>)
    ensures
        r@ == spec_single_string_args(encode_utf8("greeting"@), encode_utf8(greeting@)),
{
    encode_single_string_args("greeting", greeting)
}

/// What the caller is shown before confirming a greeting update.
#[derive(Debug)]
pub struct TransactionPreview {
    pub network: String,
    pub contract_id: String,
    pub method_name: String,
    pub args: String,
    pub gas: String,
    pub deposit: String,
}

/// Builds the preview of one greeting update: the network's label, the
/// target program, the fixed method, the argument text, and the fixed gas
/// and deposit labels.
pub fn build_transaction_preview(network: &Network, config: &NetworkConfig, greeting: &str) -> (r:
    TransactionPreview)
    ensures
        r.network@ == network.spec_section_name(),
        r.contract_id@ == config.contract_id@,
        r.method_name@ == "set_greeting"@,
        r.args@ == "{\"greeting\": \""@ + greeting@ + "\"}"@,
        r.gas@ == "30 TGas"@,
        r.deposit@ == "0 NEAR"@,
{
    let mut args = String::from_str("{\"greeting\": \"");
    args.append(greeting);
    args.append("\"}");
    TransactionPreview {
        network: String::from_str(network.section_name()),
        contract_id: config.contract_id.clone(),
        method_name: String::from_str("set_greeting"),
        args,
        gas: String::from_str("30 TGas"),
        deposit: String::from_str("0 NEAR"),
    }
}

} // verus!
