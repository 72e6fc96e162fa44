use vstd::prelude::*;

pub mod avec;
pub mod cell;
pub mod elision;
pub mod holder;
pub mod hygiene;
pub mod lifetimes;
pub mod mpsc;
pub mod patterns;
pub mod refcell;

verus! {

} // verus!
