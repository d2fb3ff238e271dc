use vstd::prelude::*;

verus! {

pub const LOCK: u32 = 1 << 31;
pub const PRIORITY_SHIFT: u32 = 24;
pub const PRIORITY_MASK: u32 = 0xF << 24;
pub const IRQ0_SEC: u32 = 1 << 0;
pub const IRQ1_SEC: u32 = 1 << 1;
pub const IRQ2_SEC: u32 = 1 << 2;
pub const IRQ3_SEC: u32 = 1 << 3;
pub const IRQ4_SEC: u32 = 1 << 4;
pub const IRQ5_SEC: u32 = 1 << 5;
pub const IRQ6_SEC: u32 = 1 << 6;
pub const IRQ7_SEC: u32 = 1 << 7;

} // verus!
