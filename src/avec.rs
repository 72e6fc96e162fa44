use vstd::prelude::*;

verus! {

/// The empty form: a new vector with nothing in it.
pub fn empty<T>() -> (r: Vec<T>)
    ensures
        r@ == Seq::<T>::empty(),
{
    Vec::new()
}

/// The list form: the elements in the order given, in a vector allocated
/// for exactly that many up front.
pub fn from_elems<T: Copy>(elems: &[T]) -> (r: Vec<T>)
    ensures
        r@ == elems@,
{
    let mut vs: Vec<T> = Vec::with_capacity(elems.len());
    let mut i: usize = 0;
    while i < elems.len()
        invariant
            i <= elems@.len(),
            vs@ == elems@.subrange(0, i as int),
        decreases elems@.len() - i,
    {
        vs.push(elems[i]);
        i += 1;
        assert(vs@ =~= elems@.subrange(0, i as int));
    }
    assert(vs@ =~= elems@);
    vs
}

/// The repeat form: `count` clones of `elem`. `elem` is evaluated once,
/// by the caller, whatever its expression.
pub fn repeat<T: Clone>(elem: T, count: usize) -> (r: Vec<T>)
    ensures
        r@.len() == count,
        forall|i: int| 0 <= i < count ==> cloned::<T>(elem, #[trigger] r@[i]),
{
    let mut vs: Vec<T> = Vec::new();
    vs.resize(count, elem);
    vs
}

} // verus!
