//! Small verified text utilities: ASCII lowercasing, decimal rendering of
//! amounts, and membership tests over lists of strings.

use vstd::prelude::*;
use vstd::string::{StrSliceExecFns, StringExecFns};

verus! {

/// Lowercases one character: ASCII uppercase letters map to their lowercase
/// counterpart, everything else is unchanged.
pub open spec fn lower_char(c: char) -> char {
    if 65 <= c as u32 <= 90 {
        ((c as u32 + 32) as u8) as char
    } else {
        c
    }
}

/// `lower_char` applied position by position.
pub open spec fn lower_chars(s: Seq<char>) -> Seq<char> {
    Seq::new(s.len(), |i: int| lower_char(s[i]))
}

/// The lowercase counterpart of an ASCII uppercase letter, as a one-character
/// string; nothing for any other character.
fn char_to_lower_str(c: char) -> (r: Option<&'static str>)
    ensures
        match r {
            Some(t) => t@ =~= seq![lower_char(c)],
            None => !(65 <= c as u32 <= 90),
        },
{
    let r: Option<&'static str> = if c == 'A' {
        proof {
            reveal_strlit("a");
        }
        Some("a")
    } else if c == 'B' {
        proof {
            reveal_strlit("b");
        }
        Some("b")
    } else if c == 'C' {
        proof {
            reveal_strlit("c");
        }
        Some("c")
    } else if c == 'D' {
        proof {
            reveal_strlit("d");
        }
        Some("d")
    } else if c == 'E' {
        proof {
            reveal_strlit("e");
        }
        Some("e")
    } else if c == 'F' {
        proof {
            reveal_strlit("f");
        }
        Some("f")
    } else if c == 'G' {
        proof {
            reveal_strlit("g");
        }
        Some("g")
    } else if c == 'H' {
        proof {
            reveal_strlit("h");
        }
        Some("h")
    } else if c == 'I' {
        proof {
            reveal_strlit("i");
        }
        Some("i")
    } else if c == 'J' {
        proof {
            reveal_strlit("j");
        }
        Some("j")
    } else if c == 'K' {
        proof {
            reveal_strlit("k");
        }
        Some("k")
    } else if c == 'L' {
        proof {
            reveal_strlit("l");
        }
        Some("l")
    } else if c == 'M' {
        proof {
            reveal_strlit("m");
        }
        Some("m")
    } else if c == 'N' {
        proof {
            reveal_strlit("n");
        }
        Some("n")
    } else if c == 'O' {
        proof {
            reveal_strlit("o");
        }
        Some("o")
    } else if c == 'P' {
        proof {
            reveal_strlit("p");
        }
        Some("p")
    } else if c == 'Q' {
        proof {
            reveal_strlit("q");
        }
        Some("q")
    } else if c == 'R' {
        proof {
            reveal_strlit("r");
        }
        Some("r")
    } else if c == 'S' {
        proof {
            reveal_strlit("s");
        }
        Some("s")
    } else if c == 'T' {
        proof {
            reveal_strlit("t");
        }
        Some("t")
    } else if c == 'U' {
        proof {
            reveal_strlit("u");
        }
        Some("u")
    } else if c == 'V' {
        proof {
            reveal_strlit("v");
        }
        Some("v")
    } else if c == 'W' {
        proof {
            reveal_strlit("w");
        }
        Some("w")
    } else if c == 'X' {
        proof {
            reveal_strlit("x");
        }
        Some("x")
    } else if c == 'Y' {
        proof {
            reveal_strlit("y");
        }
        Some("y")
    } else if c == 'Z' {
        proof {
            reveal_strlit("z");
        }
        Some("z")
    } else {
        None
    };
    r
}

/// Lowercases the ASCII letters of a string, leaving every other character
/// as it is.
pub fn ascii_lowercase(s: &str) -> (r: String)
    ensures
        r@ == lower_chars(s@),
{
    let n = s.unicode_len();
    let mut out = String::new();
    let mut i: usize = 0;
    while i < n
        invariant
            i <= n,
            n == s@.len(),
            out@ == lower_chars(s@).subrange(0, i as int),
        decreases n - i,
    {
        let c = s.get_char(i);
        match char_to_lower_str(c) {
            Some(t) => out.append(t),
            None => out.append(s.substring_char(i, i + 1)),
        }
        proof {
            assert(out@ =~= lower_chars(s@).subrange(0, i + 1));
        }
        i += 1;
    }
    proof {
        assert(lower_chars(s@).subrange(0, n as int) =~= lower_chars(s@));
    }
    out
}

/// The decimal digit character for `d`.
pub open spec fn digit_char(d: int) -> char {
    ((48 + d) as u8) as char
}

/// The decimal rendering of `n`, most significant digit first, no leading
/// zeroes (a single `0` for zero).
pub open spec fn dec_digits(n: int) -> Seq<char>
    decreases n,
{
    if n < 10 {
        seq![digit_char(n)]
    } else {
        dec_digits(n / 10) + seq![digit_char(n % 10)]
    }
}

/// The decimal digit character for `d < 10`, as a one-character string.
fn digit_str(d: u128) -> (r: &'static str)
    requires
        d < 10,
    ensures
        r@ =~= seq![digit_char(d as int)],
{
    if d == 0 {
        proof {
            reveal_strlit("0");
        }
        "0"
    } else if d == 1 {
        proof {
            reveal_strlit("1");
        }
        "1"
    } else if d == 2 {
        proof {
            reveal_strlit("2");
        }
        "2"
    } else if d == 3 {
        proof {
            reveal_strlit("3");
        }
        "3"
    } else if d == 4 {
        proof {
            reveal_strlit("4");
        }
        "4"
    } else if d == 5 {
        proof {
            reveal_strlit("5");
        }
        "5"
    } else if d == 6 {
        proof {
            reveal_strlit("6");
        }
        "6"
    } else if d == 7 {
        proof {
            reveal_strlit("7");
        }
        "7"
    } else if d == 8 {
        proof {
            reveal_strlit("8");
        }
        "8"
    } else {
        proof {
            reveal_strlit("9");
        }
        "9"
    }
}

/// Renders an amount in decimal.
pub fn u128_to_string(n: u128) -> (r: String)
    ensures
        r@ == dec_digits(n as int),
    decreases n,
{
    if n < 10 {
        let r = String::from_str(digit_str(n));
        proof {
            assert(r@ =~= dec_digits(n as int));
        }
        r
    } else {
        let mut r = u128_to_string(n / 10);
        r.append(digit_str(n % 10));
        proof {
            assert(r@ =~= dec_digits(n as int));
        }
        r
    }
}

/// View of an optional string.
pub open spec fn opt_str_view(o: Option<String>) -> Option<Seq<char>> {
    match o {
        None => None,
        Some(s) => Some(s@),
    }
}

/// Some entry of `v` reads `s`.
pub open spec fn has_str(v: Seq<String>, s: Seq<char>) -> bool {
    exists|i: int| 0 <= i < v.len() && (#[trigger] v[i])@ == s
}

/// Decides `has_str`.
pub fn contains_string(v: &Vec<String>, s: &String) -> (r: bool)
    ensures
        r == has_str(v@, s@),
{
    let n = v.len();
    let mut i: usize = 0;
    while i < n
        invariant
            i <= n,
            n == v@.len(),
            forall|j: int| 0 <= j < i ==> (#[trigger] v@[j])@ != s@,
        decreases n - i,
    {
        if s.eq(&v[i]) {
            return true;
        }
        i += 1;
    }
    false
}

/// Copies a list of strings.
pub fn clone_string_vec(v: &Vec<String>) -> (r: Vec<String>)
    ensures
        r@ == v@,
{
    let n = v.len();
    let mut out: Vec<String> = Vec::new();
    let mut i: usize = 0;
    while i < n
        invariant
            i <= n,
            n == v@.len(),
            out@ == v@.subrange(0, i as int),
        decreases n - i,
    {
        out.push(v[i].clone());
        proof {
            assert(out@ =~= v@.subrange(0, i + 1));
        }
        i += 1;
    }
    proof {
        assert(v@.subrange(0, n as int) =~= v@);
    }
    out
}

/// `cur` extended by those entries of `add`, in order, that are not already
/// present (checked against the growing list, so duplicates within `add`
/// are also collapsed).
pub open spec fn add_unique(cur: Seq<String>, add: Seq<String>) -> Seq<String>
    decreases add.len(),
{
    if add.len() == 0 {
        cur
    } else {
        let prev = add_unique(cur, add.drop_last());
        if has_str(prev, add.last()@) {
            prev
        } else {
            prev.push(add.last())
        }
    }
}

/// `cur` without every entry that reads like some entry of `rem`, keeping
/// the order of the rest.
pub open spec fn remove_all(cur: Seq<String>, rem: Seq<String>) -> Seq<String>
    decreases cur.len(),
{
    if cur.len() == 0 {
        Seq::empty()
    } else {
        remove_all(cur.drop_last(), rem) + if has_str(rem, cur.last()@) {
            Seq::empty()
        } else {
            seq![cur.last()]
        }
    }
}

/// Appends each entry of `add` that is not already present.
pub fn push_unique(out: &mut Vec<String>, add: &Vec<String>)
    ensures
        final(out)@ == add_unique(old(out)@, add@),
{
    let ghost cur0 = old(out)@;
    let n = add.len();
    let mut i: usize = 0;
    while i < n
        invariant
            i <= n,
            n == add@.len(),
            out@ == add_unique(cur0, add@.subrange(0, i as int)),
        decreases n - i,
    {
        proof {
            assert(add@.subrange(0, i + 1).drop_last() =~= add@.subrange(0, i as int));
        }
        if !contains_string(out, &add[i]) {
            out.push(add[i].clone());
        }
        i += 1;
    }
    proof {
        assert(add@.subrange(0, n as int) =~= add@);
    }
}

/// Keeps each entry of `cur` that reads like no entry of `rem`.
pub fn retain_not_in(cur: &Vec<String>, rem: &Vec<String>) -> (r: Vec<String>)
    ensures
        r@ == remove_all(cur@, rem@),
{
    let n = cur.len();
    let mut out: Vec<String> = Vec::new();
    let mut i: usize = 0;
    while i < n
        invariant
            i <= n,
            n == cur@.len(),
            out@ == remove_all(cur@.subrange(0, i as int), rem@),
        decreases n - i,
    {
        proof {
            assert(cur@.subrange(0, i + 1).drop_last() =~= cur@.subrange(0, i as int));
        }
        if !contains_string(rem, &cur[i]) {
            out.push(cur[i].clone());
            proof {
                assert(out@ =~= remove_all(cur@.subrange(0, i + 1), rem@));
            }
        } else {
            proof {
                assert(out@ =~= remove_all(cur@.subrange(0, i + 1), rem@));
            }
        }
        i += 1;
    }
    proof {
        assert(cur@.subrange(0, n as int) =~= cur@);
    }
    out
}

} // verus!
