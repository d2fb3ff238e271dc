use vstd::prelude::*;

verus! {

/// IRTIM Output 1 Remap
pub const IRTIM_OUT1_RMP: u32 = 0b11 << 0;
/// IRTIM Output 2 Remap
pub const IRTIM_OUT2_RMP: u32 = 0b11 << 2;

} // verus!
