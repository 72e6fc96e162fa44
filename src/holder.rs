use vstd::prelude::*;

verus! {

/// A struct that borrows a string for as long as it lives.
pub struct MyStruct<'a> {
    pub refer: &'a String,
}

impl<'a> MyStruct<'a> {
    /// Always empty; by elision the result borrows from `self`.
    pub fn empty(&self, _msg: &str) -> (r: &str)
        ensures
            r@ == Seq::<char>::empty(),
    {
        proof {
            reveal_strlit("");
        }
        ""
    }

    /// `msg` itself, with a lifetime of its own, independent of `'a`.
    pub fn msg<'b>(&self, msg: &'b str) -> (r: &'b str)
        ensures
            r == msg,
    {
        msg
    }
}

} // verus!
