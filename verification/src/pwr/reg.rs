use vstd::prelude::*;

verus! {

pub const CR1: usize = 0x00;
pub const CR2: usize = 0x04;
pub const CR3: usize = 0x08;
pub const VOSR: usize = 0x0C;
pub const SVMCR: usize = 0x10;
pub const WUCR1: usize = 0x14;
pub const WUCR2: usize = 0x18;
pub const WUCR3: usize = 0x1C;
pub const BDCR1: usize = 0x20;
pub const BDCR2: usize = 0x24;
pub const DBPR: usize = 0x28;
pub const UCPDR: usize = 0x2C;
pub const SECCFGR: usize = 0x30;
pub const PRIVCFGR: usize = 0x34;
pub const SR: usize = 0x38;
pub const SVMSR: usize = 0x3C;
pub const BDSR: usize = 0x40;
pub const WUSR: usize = 0x44;
pub const WUSCR: usize = 0x48;
pub const APCR: usize = 0x4C;
pub const PUCR_A: usize = 0x50;
pub const PDCR_A: usize = 0x54;
pub const PUCR_B: usize = 0x58;
pub const PDCR_B: usize = 0x5C;
pub const PUCR_C: usize = 0x60;
pub const PDCR_C: usize = 0x64;
pub const PUCR_D: usize = 0x68;
pub const PDCR_D: usize = 0x6C;
pub const PUCR_E: usize = 0x70;
pub const PDCR_E: usize = 0x74;
pub const PUCR_F: usize = 0x78;
pub const PDCR_F: usize = 0x7C;
pub const PUCR_G: usize = 0x80;
pub const PDCR_G: usize = 0x84;
pub const PUCR_H: usize = 0x88;
pub const PDCR_H: usize = 0x8C;
pub const PUCR_I: usize = 0x90;
pub const PDCR_I: usize = 0x94;
pub const PUCR_J: usize = 0x98;
pub const PDCR_J: usize = 0x9C;
pub const CR4: usize = 0xA8;
pub const CR5: usize = 0xAC;

} // verus!
