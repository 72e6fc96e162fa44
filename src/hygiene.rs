use vstd::prelude::*;

verus! {

/// A binding made in an inner scope stays there; the `x` returned is the outer one.
pub fn hygiene() -> (r: usize)
    ensures
        r == 1,
{
    {
        let x: usize = 1;
        let _ = x;
    }
    let x: usize = 1;
    x
}

/// A binding of the caller's scope, incremented in place.
pub fn across_scope() -> (r: usize)
    ensures
        r == 2,
{
    let mut x: usize = 1;
    x += 1;
    x
}

} // verus!
