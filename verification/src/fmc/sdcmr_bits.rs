use vstd::prelude::*;

verus! {

pub const CMD_SHIFT: u32 = 0;
pub const CMD_MASK: u32 = 0x7 << 0;
pub const CMD_NORMAL: u32 = 0x0 << 0;
pub const CMD_CLK_CONFIG: u32 = 0x1 << 0;
pub const CMD_PRECHARGE: u32 = 0x2 << 0;
pub const CMD_AUTOREFRESH: u32 = 0x3 << 0;
pub const CMD_LOAD_MODE: u32 = 0x4 << 0;
pub const CMD_SELFREFRESH: u32 = 0x5 << 0;
pub const CMD_POWERDOWN: u32 = 0x6 << 0;
pub const CTB1: u32 = 1 << 3;
pub const CTB2: u32 = 1 << 4;
pub const MODE_SHIFT: u32 = 5;
pub const MODE_MASK: u32 = 0x3 << 5;
pub const MODE_NORMAL: u32 = 0x0 << 5;
pub const MODE_READ: u32 = 0x1 << 5;
pub const MODE_WRITE: u32 = 0x2 << 5;

} // verus!
