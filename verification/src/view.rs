//! Interpretation of a read-only view call's result bytes.
//!
//! The bytes are first read as a JSON object with a string `greeting`
//! field; where that fails, they are read as raw text with any surrounding
//! quote characters stripped.

use vstd::prelude::*;
use vstd::utf8::decode_utf8;
use vstd::utf8::valid_utf8;
use crate::errors::PipelineError;
use crate::json::json_lookup_str;
use crate::json::spec_json_str;

verus! {

/// Relies on String::from_utf8: succeeds exactly on valid UTF-8 and
/// decodes it; the bytes are unchanged underneath.
#[verifier::external_body]
fn bytes_to_string(data: &[u8]) -> (r: Option<String>)
    ensures
        r is Some <==> valid_utf8(data@),
        r is Some ==> r.unwrap()@ == decode_utf8(data@),
{
    match String::from_utf8(data.to_vec()) {
        Ok(s) => Some(s),
        Err(_) => None,
    }
}

/// The sequence without its leading quote bytes.
pub open spec fn spec_drop_leading_quotes(s: Seq<u8>) -> Seq<u8>
    decreases s.len(),
{
    if s.len() > 0 && s[0] == 34 {
        spec_drop_leading_quotes(s.drop_first())
    } else {
        s
    }
}

/// The sequence without its trailing quote bytes.
pub open spec fn spec_drop_trailing_quotes(s: Seq<u8>) -> Seq<u8>
    decreases s.len(),
{
    if s.len() > 0 && s.last() == 34 {
        spec_drop_trailing_quotes(s.drop_last())
    } else {
        s
    }
}

/// The sequence without quote bytes on either end.
pub open spec fn spec_trim_quotes(s: Seq<u8>) -> Seq<u8> {
    spec_drop_trailing_quotes(spec_drop_leading_quotes(s))
}

/// Copies `data` without quote bytes on either end.
fn trim_quotes(data: &[u8]) -> (r: Vec<u8>)
    ensures
        r@ == spec_trim_quotes(data@),
{
    let n = data.len();
    let mut start: usize = 0;
    assert(data@.skip(0) =~= data@);
    while start < n && data[start] == 34
        invariant
            n == data@.len(),
            0 <= start <= n,
            spec_drop_leading_quotes(data@) == spec_drop_leading_quotes(
                data@.skip(start as int),
            ),
        decreases n - start,
    {
        proof {
            assert(data@.skip(start as int)[0] == data@[start as int]);
            assert(data@.skip(start as int).drop_first() =~= data@.skip(start + 1));
        }
        start = start + 1;
    }
    proof {
        if start < n {
            assert(data@.skip(start as int)[0] == data@[start as int]);
        }
        assert(spec_drop_leading_quotes(data@) == data@.skip(start as int));
    }
    let mut end: usize = n;
    while end > start && data[end - 1] == 34
        invariant
            n == data@.len(),
            0 <= start <= end <= n,
            spec_drop_leading_quotes(data@) == data@.skip(start as int),
            spec_drop_trailing_quotes(data@.skip(start as int)) == spec_drop_trailing_quotes(
                data@.subrange(start as int, end as int),
            ),
        decreases end,
    {
        proof {
            let cur = data@.subrange(start as int, end as int);
            assert(cur.last() == data@[end - 1]);
            assert(cur.drop_last() =~= data@.subrange(start as int, end - 1));
        }
        end = end - 1;
    }
    proof {
        let cur = data@.subrange(start as int, end as int);
        if end > start {
            assert(cur.last() == data@[end - 1]);
        }
        assert(spec_drop_trailing_quotes(cur) == cur);
        assert(data@.skip(start as int) =~= data@.subrange(start as int, n as int));
        assert(spec_trim_quotes(data@) == data@.subrange(start as int, end as int));
    }
    let mut out: Vec<u8> = Vec::new();
    let mut i: usize = start;
    while i < end
        invariant
            0 <= start <= i <= end <= n,
            n == data@.len(),
            out@ == data@.subrange(start as int, i as int),
        decreases end - i,
    {
        out.push(data[i]);
        assert(out@ =~= data@.subrange(start as int, i + 1));
        i = i + 1;
    }
    proof {
        assert(out@ == data@.subrange(start as int, end as int));
    }
    out
}

/// Reads a view call's result bytes as a greeting.
///
/// A JSON object with a string `greeting` field yields that string; any
/// other valid text yields the text without surrounding quotes; bytes that
/// are not text are an `RpcProtocolError`.
pub fn interpret_view_result(data: &[u8]) -> (r: Result<String, PipelineError>)
    ensures
        match spec_json_str(data@, "greeting"@) {
            Some(g) => r is Ok && r.unwrap()@ == g,
            None => {
                if valid_utf8(spec_trim_quotes(data@)) {
                    r is Ok && r.unwrap()@ == decode_utf8(spec_trim_quotes(data@))
                } else {
                    r is Err && r.unwrap_err() is RpcProtocolError
                }
            },
        },
{
    if let Some(greeting) = json_lookup_str(data, "greeting") {
        return Ok(greeting);
    }
    let trimmed = trim_quotes(data);
    match bytes_to_string(trimmed.as_slice()) {
        Some(text) => Ok(text),
        None => Err(
            PipelineError::RpcProtocolError {
                detail: "the view call's result is not text".to_owned(),
            },
        ),
    }
}

} // verus!
