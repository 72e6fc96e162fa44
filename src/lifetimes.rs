use vstd::prelude::*;
use vstd::utf8::encode_utf8;

verus! {

/// Length of a string in bytes, as `str::len` counts it.
pub open spec fn byte_len(s: Seq<char>) -> usize {
    encode_utf8(s).len() as usize
}

/// The longer of two strings by byte length; the second on a tie.
/// Both inputs share one lifetime, so the result lives as long as the shorter-lived.
pub fn longest<'a>(s1: &'a String, s2: &'a String) -> (r: &'a String)
    ensures
        r == (if byte_len(s1@) > byte_len(s2@) {
            s1
        } else {
            s2
        }),
{
    if s1.as_str().len() > s2.as_str().len() {
        s1
    } else {
        s2
    }
}

/// The first string; the result borrows from it alone, so the second may go first.
pub fn pick_first<'a>(s1: &'a String, _s2: &String) -> (r: &'a String)
    ensures
        r == s1,
{
    s1
}

} // verus!
