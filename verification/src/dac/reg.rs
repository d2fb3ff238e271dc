use vstd::prelude::*;

verus! {

/// DAC control register
pub const CR: usize = 0x00;
/// DAC software trigger register
pub const SWTRGR: usize = 0x04;
/// DAC channel 1 12-bit right-aligned data holding register
pub const DHR12R1: usize = 0x08;
/// DAC channel 1 12-bit left-aligned data holding register
pub const DHR12L1: usize = 0x0C;
/// DAC channel 1 8-bit right-aligned data holding register
pub const DHR8R1: usize = 0x10;
/// DAC channel 2 12-bit right-aligned data holding register
pub const DHR12R2: usize = 0x14;
/// DAC channel 2 12-bit left-aligned data holding register
pub const DHR12L2: usize = 0x18;
/// DAC channel 2 8-bit right-aligned data holding register
pub const DHR8R2: usize = 0x1C;
/// Dual DAC 12-bit right-aligned data holding register
pub const DHR12RD: usize = 0x20;
/// Dual DAC 12-bit left-aligned data holding register
pub const DHR12LD: usize = 0x24;
/// Dual DAC 8-bit right-aligned data holding register
pub const DHR8RD: usize = 0x28;
/// DAC channel 1 data output register
pub const DOR1: usize = 0x2C;
/// DAC channel 2 data output register
pub const DOR2: usize = 0x30;
/// DAC status register
pub const SR: usize = 0x34;
/// DAC calibration mode register
pub const CCR: usize = 0x38;
/// DAC mode register
pub const MCR: usize = 0x3C;
/// DAC channel 1 sample and hold sample time register
pub const SHSR1: usize = 0x40;
/// DAC channel 2 sample and hold sample time register
pub const SHSR2: usize = 0x44;
/// DAC sample and hold time register
pub const SHHR: usize = 0x48;
/// DAC sample and hold refresh time register
pub const SHRR: usize = 0x4C;

} // verus!
