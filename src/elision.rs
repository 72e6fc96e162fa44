use vstd::prelude::*;

verus! {

/// A type without data whose methods show the elision rules on `&self`.
pub struct MyStruct {}

impl MyStruct {
    /// Always empty; by elision the result borrows from `self`.
    pub fn empty(&self, _msg: &str) -> (r: &str)
        ensures
            r@ == Seq::<char>::empty(),
    {
        proof {
            reveal_strlit("");
        }
        ""
    }

    /// `msg` itself; its lifetime is named, so the result borrows from `msg` alone.
    pub fn msg<'a>(&self, msg: &'a str) -> (r: &'a str)
        ensures
            r == msg,
    {
        msg
    }
}

} // verus!
