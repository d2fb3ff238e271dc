use vstd::prelude::*;

verus! {

pub const SAI_CR1: usize = 0x00;
pub const SAI_CR2: usize = 0x04;
pub const SAI_FRCR: usize = 0x08;
pub const SAI_SLOTR: usize = 0x0C;
pub const SAI_IMR: usize = 0x10;
pub const SAI_SR: usize = 0x14;
pub const SAI_CLRFR: usize = 0x18;
pub const SAI_DR: usize = 0x1C;

} // verus!
