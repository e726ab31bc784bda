//! Syntactic validation of account identifiers.
//!
//! An account identifier is an opaque string; the only structure this crate
//! imposes is the bech32-style surface syntax below, checked once by the
//! configuration gate and by the instantiate handlers.

use vstd::prelude::*;
use vstd::string::StrSliceExecFns;

verus! {

/// Characters admitted in an account identifier: lowercase ASCII letters and
/// digits.
pub open spec fn is_account_char(c: char) -> bool {
    (97 <= c as u32 && c as u32 <= 122) || (48 <= c as u32 && c as u32 <= 57)
}

/// A well-formed account identifier: 3 to 90 characters, all of them
/// lowercase ASCII letters or digits.
pub open spec fn valid_account_id(s: Seq<char>) -> bool {
    3 <= s.len() <= 90 && forall|i: int| 0 <= i < s.len() ==> is_account_char(#[trigger] s[i])
}

/// Decides `valid_account_id` for a string slice.
pub fn check_account_id(s: &str) -> (r: bool)
    ensures
        r == valid_account_id(s@),
{
    let n = s.unicode_len();
    if n < 3 || n > 90 {
        return false;
    }
    let mut i: usize = 0;
    while i < n
        invariant
            n == s@.len(),
            3 <= n <= 90,
            i <= n,
            forall|j: int| 0 <= j < i ==> is_account_char(#[trigger] s@[j]),
        decreases n - i,
    {
        let c = s.get_char(i);
        let u = c as u32;
        if !((97 <= u && u <= 122) || (48 <= u && u <= 57)) {
            return false;
        }
        i += 1;
    }
    true
}

} // verus!
