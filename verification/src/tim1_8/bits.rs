use vstd::prelude::*;
pub mod cr1;
pub mod cr2;
pub mod smcr;
pub mod dier;
pub mod sr;
pub mod egr;
pub mod ccmr1_output;
pub mod ccmr1_input;
pub mod ccmr2_output;
pub mod ccmr2_input;
pub mod ccer;
pub mod bdtr;
pub mod dcr;
pub mod ccmr3_output;

verus! {


} // verus!
