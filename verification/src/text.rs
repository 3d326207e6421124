//! Small verified helpers on strings.

use vstd::prelude::*;

verus! {

/// Whether two strings hold the same characters.
pub fn str_eq(a: &str, b: &str) -> (r: bool)
    ensures
        r == (a@ == b@),
{
    let a = String::from_str(a);
    let b = String::from_str(b);
    a == b
}

} // verus!

verus! {

/// The name without the raw-identifier prefix `r#`, if it has one.
pub open spec fn spec_unraw(s: Seq<char>) -> Seq<char> {
    if s.len() >= 2 && s[0] == 'r' && s[1] == '#' {
        s.skip(2)
    } else {
        s
    }
}

/// The name without the raw-identifier prefix `r#`, if it has one.
pub fn unraw(s: &String) -> (r: String)
    ensures
        r@ == spec_unraw(s@),
{
    let n = s.as_str().unicode_len();
    if n >= 2 && s.as_str().get_char(0) == 'r' && s.as_str().get_char(1) == '#' {
        String::from_str(s.as_str().substring_char(2, n))
    } else {
        s.clone()
    }
}

} // verus!
