use vstd::prelude::*;

verus! {

/// LTDC Synchronization Size Configuration Register
pub const SSCR: usize = 0x08;
/// LTDC Back Porch Configuration Register
pub const BPCR: usize = 0x0C;
/// LTDC Active Width Configuration Register
pub const AWCR: usize = 0x10;
/// LTDC Total Width Configuration Register
pub const TWCR: usize = 0x14;
/// LTDC Global Control Register
pub const GCR: usize = 0x18;
/// LTDC Shadow Reload Configuration Register
pub const SRCR: usize = 0x24;
/// LTDC Background Color Configuration Register
pub const BCCR: usize = 0x2C;
/// LTDC Interrupt Enable Register
pub const IER: usize = 0x34;
/// LTDC Interrupt Status Register
pub const ISR: usize = 0x38;
/// LTDC Interrupt Clear Register
pub const ICR: usize = 0x3C;
/// LTDC Line Interrupt Position Configuration Register
pub const LIPCR: usize = 0x40;
/// LTDC Current Position Status Register
pub const CPSR: usize = 0x44;
/// LTDC Current Display Status Register
pub const CDSR: usize = 0x48;

} // verus!
