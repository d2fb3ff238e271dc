use vstd::prelude::*;

verus! {

/// SMPS control register
pub const CR: usize = 0x00;
/// SMPS configuration register
pub const CFGR: usize = 0x04;
/// SMPS status register
pub const SR: usize = 0x08;
/// SMPS interrupt enable register
pub const IER: usize = 0x0C;
/// SMPS interrupt status register
pub const ISR: usize = 0x10;
/// SMPS power mode register
pub const PMR: usize = 0x14;

} // verus!
