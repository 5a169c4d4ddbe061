//! Validation of NEAR account identifiers.
//!
//! An account id is 2 to 64 bytes of lower-case letters, digits and the
//! separators `-`, `_` and `.`, where no separator starts or ends the id and
//! no two separators are adjacent.

use vstd::prelude::*;
use vstd::string::StringSliceAdditionalSpecFns;

verus! {

/// A byte that may appear between separators: a lower-case letter or a digit.
pub open spec fn is_account_body_byte(b: u8) -> bool {
    (97 <= b && b <= 122) || (48 <= b && b <= 57)
}

/// One of the three separator bytes `-`, `_`, `.`.
pub open spec fn is_account_separator_byte(b: u8) -> bool {
    b == 45 || b == 95 || b == 46
}

/// The validity rule for an account id, over its UTF-8 bytes.
pub open spec fn valid_account_id(s: Seq<u8>) -> bool {
    &&& 2 <= s.len() <= 64
    &&& forall|i: int|
        0 <= i < s.len() ==> is_account_body_byte(#[trigger] s[i]) || is_account_separator_byte(
            s[i],
        )
    &&& !is_account_separator_byte(s[0])
    &&& !is_account_separator_byte(s[s.len() - 1])
    &&& forall|i: int|
        0 < i < s.len() ==> !(is_account_separator_byte(#[trigger] s[i])
            && is_account_separator_byte(s[i - 1]))
}

/// Decides `valid_account_id` for the bytes of `s`.
pub fn check_account_id(s: &str) -> (r: bool)
    ensures
        r == valid_account_id(s.spec_bytes()),
{
    let bytes = s.as_bytes();
    let n = bytes.len();
    if n < 2 || n > 64 {
        return false;
    }
    let mut prev_sep = false;
    let mut i: usize = 0;
    while i < n
        invariant
            2 <= n <= 64,
            n == bytes@.len(),
            bytes@ == s.spec_bytes(),
            0 <= i <= n,
            forall|j: int|
                0 <= j < i ==> is_account_body_byte(#[trigger] bytes@[j])
                    || is_account_separator_byte(bytes@[j]),
            i > 0 ==> !is_account_separator_byte(bytes@[0]),
            forall|j: int|
                0 < j < i ==> !(is_account_separator_byte(#[trigger] bytes@[j])
                    && is_account_separator_byte(bytes@[j - 1])),
            i > 0 ==> prev_sep == is_account_separator_byte(bytes@[i - 1]),
            i > 0 && i - 1 == n - 1 ==> !is_account_separator_byte(bytes@[n - 1]),
        decreases n - i,
    {
        let b = bytes[i];
        let body = (97 <= b && b <= 122) || (48 <= b && b <= 57);
        let sep = b == 45 || b == 95 || b == 46;
        if !body && !sep {
            return false;
        }
        if sep && (i == 0 || i == n - 1) {
            return false;
        }
        if sep && prev_sep {
            return false;
        }
        prev_sep = sep;
        i = i + 1;
    }
    true
}

} // verus!
