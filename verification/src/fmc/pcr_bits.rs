use vstd::prelude::*;

verus! {

pub const PWAITEN: u32 = 1 << 1;
pub const PTYP: u32 = 1 << 3;
pub const PWID_SHIFT: u32 = 4;
pub const PWID_MASK: u32 = 0x3 << 4;
pub const PWID_8BIT: u32 = 0x0 << 4;
pub const PWID_16BIT: u32 = 0x1 << 4;
pub const ECCEN: u32 = 1 << 6;
pub const ECCPS_SHIFT: u32 = 17;
pub const ECCPS_MASK: u32 = 0x7 << 17;
pub const ECCPS_256: u32 = 0x0 << 17;
pub const ECCPS_512: u32 = 0x1 << 17;
pub const ECCPS_1024: u32 = 0x2 << 17;
pub const ECCPS_2048: u32 = 0x3 << 17;
pub const ECCPS_4096: u32 = 0x4 << 17;
pub const ECCPS_8192: u32 = 0x5 << 17;

} // verus!
