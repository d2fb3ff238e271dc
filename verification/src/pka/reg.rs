use vstd::prelude::*;

verus! {

/// PKA control register
pub const CR: usize = 0x00;
/// PKA status register
pub const SR: usize = 0x04;
/// PKA clear flag register
pub const CLRFR: usize = 0x08;
/// PKA RAM start address
pub const RAM0: usize = 0x400;

} // verus!
