use vstd::prelude::*;

verus! {

pub const VOS: u32 = 0b11 << 16;
pub const VOSRDY: u32 = 1 << 15;
pub const VOSY: u32 = 1 << 14;
pub const COMP1_VREFOUTEN: u32 = 1 << 31;

} // verus!
