use vstd::prelude::*;

verus! {

pub const PVDO: u32 = 1 << 0;
pub const VOSF: u32 = 1 << 1;
pub const REGS: u32 = 1 << 4;
pub const FST_RDY: u32 = 1 << 5;
pub const STOPF: u32 = 1 << 6;
pub const SBF: u32 = 1 << 7;
pub const WUFI: u32 = 1 << 8;
pub const WKUPF1: u32 = 1 << 16;
pub const WKUPF2: u32 = 1 << 17;
pub const WKUPF3: u32 = 1 << 18;
pub const WKUPF4: u32 = 1 << 19;
pub const WKUPF5: u32 = 1 << 20;
pub const WKUPF6: u32 = 1 << 21;
pub const WKUPF7: u32 = 1 << 22;
pub const WKUPF8: u32 = 1 << 23;

} // verus!
