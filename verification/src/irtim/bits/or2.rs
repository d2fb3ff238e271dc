use vstd::prelude::*;

verus! {

/// IRTIM Input 1 Remap
pub const IRTIM_IN1_RMP: u32 = 0b11 << 0;
/// IRTIM Input 2 Remap
pub const IRTIM_IN2_RMP: u32 = 0b11 << 2;

} // verus!
