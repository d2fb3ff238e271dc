use vstd::prelude::*;

verus! {

pub const TMRD_SHIFT: u32 = 0;
pub const TMRD_MASK: u32 = 0xF << 0;
pub const TXSR_SHIFT: u32 = 4;
pub const TXSR_MASK: u32 = 0xF << 4;
pub const TRAS_SHIFT: u32 = 8;
pub const TRAS_MASK: u32 = 0xF << 8;
pub const TRC_SHIFT: u32 = 12;
pub const TRC_MASK: u32 = 0xF << 12;
pub const TWR_SHIFT: u32 = 16;
pub const TWR_MASK: u32 = 0xF << 16;
pub const TRP_SHIFT: u32 = 20;
pub const TRP_MASK: u32 = 0xF << 20;
pub const TRCD_SHIFT: u32 = 24;
pub const TRCD_MASK: u32 = 0xF << 24;

} // verus!
