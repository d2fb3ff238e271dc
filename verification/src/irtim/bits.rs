use vstd::prelude::*;
pub mod cr;
pub mod sr;
pub mod ier;
pub mod icr;
pub mod bdtr;
pub mod or1;
pub mod or2;

verus! {


} // verus!
