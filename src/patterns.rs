use vstd::prelude::*;

verus! {

/// Overwrites the string inside `s` through a mutable binding: `Some("")` for
/// any `Some`, `None` for `None`.
pub fn ref_mut<'a>(mut s: Option<&'a str>) -> (r: Option<&'a str>)
    ensures
        s is None ==> r is None,
        s is Some ==> r is Some && r->0@ == Seq::<char>::empty(),
{
    proof {
        reveal_strlit("");
    }
    if let Some(ref mut s_ref) = s {
        *s_ref = "";
        s
    } else {
        None
    }
}

/// As `ref_mut`, through `Option::as_mut` and `?`.
pub fn ref_mut2<'a>(mut s: Option<&'a str>) -> (r: Option<&'a str>)
    ensures
        s is None ==> r is None,
        s is Some ==> r is Some && r->0@ == Seq::<char>::empty(),
{
    proof {
        reveal_strlit("");
    }
    let s_ref = s.as_mut()?;
    *s_ref = "";
    s
}

/// Rebinding a copy of the inner `&str` leaves `s` as it was.
pub fn ref_mut3<'a>(s: Option<&'a str>) -> (r: Option<&'a str>)
    ensures
        r == s,
{
    let mut s2 = s?;
    let _ = s2;
    s2 = "";
    let _ = s2;
    s
}

/// A small copyable record.
#[derive(Copy, Clone, PartialEq, Debug)]
pub struct Foo {
    pub id: usize,
}

/// A copy of the record behind the mutable reference, if any; `Foo` is `Copy`,
/// so the value moves out by copy.
pub fn and_mut(input: Option<&mut Foo>) -> (r: Option<Foo>)
    ensures
        input is None ==> r is None,
        input is Some ==> r == Some(*old(input->0)),
{
    if let Some(s) = input {
        Some(*s)
    } else {
        None
    }
}

} // verus!
