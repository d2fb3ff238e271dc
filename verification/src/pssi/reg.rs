use vstd::prelude::*;

verus! {

/// PSSI Control Register
pub const CR: usize = 0x00;
/// PSSI Status Register
pub const SR: usize = 0x04;
/// PSSI Raw Interrupt Status Register
pub const RIS: usize = 0x08;
/// PSSI Interrupt Enable Register
pub const IER: usize = 0x0C;
/// PSSI Masked Interrupt Status Register
pub const MIS: usize = 0x10;
/// PSSI Interrupt Clear Register
pub const ICR: usize = 0x14;
/// PSSI Data Register
pub const DR: usize = 0x18;

} // verus!
