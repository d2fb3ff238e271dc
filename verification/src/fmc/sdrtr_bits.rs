use vstd::prelude::*;

verus! {

pub const COUNT_SHIFT: u32 = 1;
pub const COUNT_MASK: u32 = 0x1FFF << 1;
pub const REIE: u32 = 1 << 14;

} // verus!
