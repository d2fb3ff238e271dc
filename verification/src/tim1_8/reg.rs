use vstd::prelude::*;

verus! {

/// Control Register 1
pub const CR1: usize = 0x00;
/// Control Register 2
pub const CR2: usize = 0x04;
/// Slave Mode Control Register
pub const SMCR: usize = 0x08;
/// DMA/Interrupt Enable Register
pub const DIER: usize = 0x0C;
/// Status Register
pub const SR: usize = 0x10;
/// Event Generation Register
pub const EGR: usize = 0x14;
/// Capture/Compare Mode Register 1
pub const CCMR1: usize = 0x18;
/// Capture/Compare Mode Register 2
pub const CCMR2: usize = 0x1C;
/// Capture/Compare Enable Register
pub const CCER: usize = 0x20;
/// Counter
pub const CNT: usize = 0x24;
/// Prescaler
pub const PSC: usize = 0x28;
/// Auto-reload Register
pub const ARR: usize = 0x2C;
/// Repetition Counter Register
pub const RCR: usize = 0x30;
/// Capture/Compare Register 1
pub const CCR1: usize = 0x34;
/// Capture/Compare Register 2
pub const CCR2: usize = 0x38;
/// Capture/Compare Register 3
pub const CCR3: usize = 0x3C;
/// Capture/Compare Register 4
pub const CCR4: usize = 0x40;
/// Break and Dead-time Register
pub const BDTR: usize = 0x44;
/// DMA Control Register
pub const DCR: usize = 0x48;
/// DMA Address Register
pub const DMAR: usize = 0x4C;
/// Option Register
pub const OR: usize = 0x50;
/// Capture/Compare Mode Register 3
pub const CCMR3: usize = 0x54;
/// Capture/Compare Register 5
pub const CCR5: usize = 0x58;
/// Capture/Compare Register 6
pub const CCR6: usize = 0x5C;

} // verus!
