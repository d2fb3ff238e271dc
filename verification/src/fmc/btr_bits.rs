use vstd::prelude::*;

verus! {

pub const ADDSET_SHIFT: u32 = 0;
pub const ADDSET_MASK: u32 = 0xF << 0;
pub const ADDHLD_SHIFT: u32 = 4;
pub const ADDHLD_MASK: u32 = 0xF << 4;
pub const DATAST_SHIFT: u32 = 8;
pub const DATAST_MASK: u32 = 0xFF << 8;
pub const BUSTURN_SHIFT: u32 = 16;
pub const BUSTURN_MASK: u32 = 0xF << 16;
pub const CLKDIV_SHIFT: u32 = 20;
pub const CLKDIV_MASK: u32 = 0xF << 20;
pub const DATLAT_SHIFT: u32 = 24;
pub const DATLAT_MASK: u32 = 0xF << 24;
pub const ACCMOD_SHIFT: u32 = 28;
pub const ACCMOD_MASK: u32 = 0x3 << 28;
pub const ACCMOD_A: u32 = 0x0 << 28;
pub const ACCMOD_B: u32 = 0x1 << 28;
pub const ACCMOD_C: u32 = 0x2 << 28;
pub const ACCMOD_D: u32 = 0x3 << 28;

} // verus!
