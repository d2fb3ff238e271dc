use vstd::prelude::*;

verus! {

pub const RE: u32 = 1 << 0;
pub const MODES1_SHIFT: u32 = 1;
pub const MODES1_MASK: u32 = 0x3 << 1;
pub const MODES2_SHIFT: u32 = 3;
pub const MODES2_MASK: u32 = 0x3 << 3;
pub const BUSY: u32 = 1 << 5;

} // verus!
