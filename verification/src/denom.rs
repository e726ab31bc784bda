//! Namespaced denominations.
//!
//! A token created by the issuance factory is identified by a denomination
//! that begins with the reserved `factory/` namespace prefix; configuration
//! rejects anything else.

use vstd::prelude::*;
use vstd::string::StrSliceExecFns;

verus! {

/// The denomination begins with the reserved namespace prefix `factory/`.
pub open spec fn has_factory_prefix(s: Seq<char>) -> bool {
    &&& s.len() >= 8
    &&& s[0] == 'f'
    &&& s[1] == 'a'
    &&& s[2] == 'c'
    &&& s[3] == 't'
    &&& s[4] == 'o'
    &&& s[5] == 'r'
    &&& s[6] == 'y'
    &&& s[7] == '/'
}

/// Decides `has_factory_prefix` for a string slice.
pub fn check_factory_prefix(s: &str) -> (r: bool)
    ensures
        r == has_factory_prefix(s@),
{
    let n = s.unicode_len();
    if n < 8 {
        return false;
    }
    s.get_char(0) == 'f' && s.get_char(1) == 'a' && s.get_char(2) == 'c' && s.get_char(3) == 't'
        && s.get_char(4) == 'o' && s.get_char(5) == 'r' && s.get_char(6) == 'y' && s.get_char(7)
        == '/'
}

} // verus!
