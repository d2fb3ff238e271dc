use vstd::prelude::*;

verus! {

pub const CR: usize = 0x00;
pub const DECPROT0: usize = 0x10;
pub const DECPROT1: usize = 0x14;
pub const DECPROT2: usize = 0x18;
pub const DECPROT3: usize = 0x1C;
pub const DECPROT4: usize = 0x20;
pub const DECPROT5: usize = 0x24;
pub const DECPROT6: usize = 0x28;
pub const DECPROT7: usize = 0x2C;
pub const DECPROT8: usize = 0x30;
pub const DECPROT9: usize = 0x34;
pub const DECPROT10: usize = 0x38;
pub const DECPROT11: usize = 0x3C;
pub const DECPROT12: usize = 0x40;
pub const DECPROT13: usize = 0x44;
pub const DECPROT14: usize = 0x48;
pub const DECPROT15: usize = 0x4C;
pub const DECPROT16: usize = 0x50;
pub const DECPROT17: usize = 0x54;
pub const DECPROT18: usize = 0x58;
pub const DECPROT19: usize = 0x5C;
pub const DECPROT20: usize = 0x60;
pub const DECPROT21: usize = 0x64;
pub const DECPROT22: usize = 0x68;
pub const DECPROT23: usize = 0x6C;
pub const DECPROT24: usize = 0x70;
pub const DECPROT25: usize = 0x74;
pub const DECPROT26: usize = 0x78;
pub const DECPROT27: usize = 0x7C;
pub const DECPROT28: usize = 0x80;
pub const DECPROT29: usize = 0x84;
pub const DECPROT30: usize = 0x88;
pub const DECPROT31: usize = 0x8C;
pub const MCU_DECPROT: usize = 0xA0;
pub const MCU_DECPROT2: usize = 0xA4;

} // verus!
