use vstd::prelude::*;

verus! {

pub const BCR1: usize = 0x00;
pub const BTR1: usize = 0x04;
pub const BCR2: usize = 0x08;
pub const BTR2: usize = 0x0C;
pub const BCR3: usize = 0x10;
pub const BTR3: usize = 0x14;
pub const BCR4: usize = 0x18;
pub const BTR4: usize = 0x1C;
pub const BWTR1: usize = 0x104;
pub const BWTR2: usize = 0x10C;
pub const BWTR3: usize = 0x114;
pub const BWTR4: usize = 0x11C;
pub const PCR2: usize = 0x60;
pub const SR2: usize = 0x64;
pub const PMEM2: usize = 0x68;
pub const PATT2: usize = 0x6C;
pub const ECCR2: usize = 0x74;
pub const PCR3: usize = 0x80;
pub const SR3: usize = 0x84;
pub const PMEM3: usize = 0x88;
pub const PATT3: usize = 0x8C;
pub const ECCR3: usize = 0x94;
pub const PCR4: usize = 0xA0;
pub const SR4: usize = 0xA4;
pub const PMEM4: usize = 0xA8;
pub const PATT4: usize = 0xAC;
pub const PIO4: usize = 0xB0;
pub const SDCR1: usize = 0x140;
pub const SDCR2: usize = 0x144;
pub const SDTR1: usize = 0x148;
pub const SDTR2: usize = 0x14C;
pub const SDCMR: usize = 0x150;
pub const SDRTR: usize = 0x154;
pub const SDSR: usize = 0x158;

} // verus!
