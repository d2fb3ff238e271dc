use vstd::prelude::*;

verus! {

pub const MODE_A: u8 = 0;
pub const MODE_B: u8 = 1;
pub const MODE_C: u8 = 2;
pub const MODE_D: u8 = 3;

} // verus!
