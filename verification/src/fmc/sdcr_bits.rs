use vstd::prelude::*;

verus! {

pub const NC_SHIFT: u32 = 0;
pub const NC_MASK: u32 = 0x3 << 0;
pub const NC_8BIT: u32 = 0x0 << 0;
pub const NC_9BIT: u32 = 0x1 << 0;
pub const NC_10BIT: u32 = 0x2 << 0;
pub const NC_11BIT: u32 = 0x3 << 0;
pub const NR_SHIFT: u32 = 2;
pub const NR_MASK: u32 = 0x3 << 2;
pub const NR_11BIT: u32 = 0x0 << 2;
pub const NR_12BIT: u32 = 0x1 << 2;
pub const NR_13BIT: u32 = 0x2 << 2;
pub const MWID_SHIFT: u32 = 4;
pub const MWID_MASK: u32 = 0x3 << 4;
pub const MWID_8BIT: u32 = 0x0 << 4;
pub const MWID_16BIT: u32 = 0x1 << 4;
pub const NB: u32 = 1 << 6;
pub const CAS_SHIFT: u32 = 7;
pub const CAS_MASK: u32 = 0x3 << 7;
pub const CAS_1: u32 = 0x1 << 7;
pub const CAS_2: u32 = 0x2 << 7;
pub const CAS_3: u32 = 0x3 << 7;
pub const WP: u32 = 1 << 9;
pub const SDCLK_SHIFT: u32 = 10;
pub const SDCLK_MASK: u32 = 0x3 << 10;
pub const SDCLK_DISABLE: u32 = 0x0 << 10;
pub const SDCLK_2: u32 = 0x1 << 10;
pub const SDCLK_3: u32 = 0x2 << 10;
pub const RBURST: u32 = 1 << 12;
pub const RPIPE_SHIFT: u32 = 13;
pub const RPIPE_MASK: u32 = 0x3 << 13;
pub const RPIPE_NO: u32 = 0x0 << 13;
pub const RPIPE_1: u32 = 0x1 << 13;
pub const RPIPE_2: u32 = 0x2 << 13;

} // verus!
