use vstd::prelude::*;

verus! {

/// ADC Common Status Register
pub const CSR: usize = 0x00;
/// ADC Common Control Register
pub const CCR: usize = 0x08;
/// ADC Common Data Register for dual mode
pub const CDR: usize = 0x0C;
/// ADC Hardware Configuration Register 0
pub const HWCFGR0: usize = 0x10;
/// ADC Hardware Configuration Register 1
pub const HWCFGR1: usize = 0x14;
/// ADC Hardware Configuration Register 2
pub const HWCFGR2: usize = 0x18;
/// ADC Version Register
pub const VERR: usize = 0x3F4;
/// ADC Identification Register
pub const IIDR: usize = 0x3F8;
/// ADC Size ID Register
pub const SIDR: usize = 0x3FC;

} // verus!
