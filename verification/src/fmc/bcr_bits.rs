use vstd::prelude::*;

verus! {

pub const MBKEN: u32 = 1 << 0;
pub const MUXEN: u32 = 1 << 1;
pub const MTYP_SHIFT: u32 = 2;
pub const MTYP_MASK: u32 = 0x3 << 2;
pub const MTYP_SRAM: u32 = 0x0 << 2;
pub const MTYP_PSRAM: u32 = 0x1 << 2;
pub const MTYP_NOR: u32 = 0x2 << 2;
pub const MWID_SHIFT: u32 = 4;
pub const MWID_MASK: u32 = 0x3 << 4;
pub const MWID_8BIT: u32 = 0x0 << 4;
pub const MWID_16BIT: u32 = 0x1 << 4;
pub const FACCEN: u32 = 1 << 6;
pub const BURSTEN: u32 = 1 << 8;
pub const WAITPOL: u32 = 1 << 9;
pub const WAITCFG: u32 = 1 << 11;
pub const WREN: u32 = 1 << 12;
pub const WAITEN: u32 = 1 << 13;
pub const EXTMOD: u32 = 1 << 14;
pub const ASYNCWAIT: u32 = 1 << 15;
pub const CBURSTRW: u32 = 1 << 19;
pub const CCLKEN: u32 = 1 << 20;
pub const WFDIS: u32 = 1 << 21;
pub const BANK4_1: u32 = 1 << 22;
pub const BANK4_2: u32 = 1 << 23;

} // verus!
