use vstd::prelude::*;

verus! {

pub const CR: usize = 0x00;
pub const SR: usize = 0x04;
pub const ECCIER: usize = 0x08;
pub const ECCISR: usize = 0x0C;
pub const ECCIPR: usize = 0x10;
pub const ECCDAIR: usize = 0x14;
pub const ECCDEAR: usize = 0x18;
pub const SR1: usize = 0x40;
pub const SR2: usize = 0x44;
pub const SR3: usize = 0x48;
pub const SR4: usize = 0x4C;
pub const SR5: usize = 0x50;
pub const SR6: usize = 0x54;
pub const SR7: usize = 0x58;
pub const SR8: usize = 0x5C;
pub const CR1: usize = 0x80;
pub const CR2: usize = 0x84;
pub const CR3: usize = 0x88;
pub const CR4: usize = 0x8C;
pub const CR5: usize = 0x90;
pub const CR6: usize = 0x94;
pub const CR7: usize = 0x98;
pub const CR8: usize = 0x9C;

} // verus!
