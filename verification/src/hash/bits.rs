use vstd::prelude::*;
pub mod cr;
pub mod sr;

verus! {


} // verus!
