use vstd::prelude::*;

verus! {

/// Control register 1
pub const CR1: usize = 0x00;
/// Control register 2
pub const CR2: usize = 0x04;
/// Own address 1 register
pub const OAR1: usize = 0x08;
/// Own address 2 register
pub const OAR2: usize = 0x0C;
/// Timing register
pub const TIMINGR: usize = 0x10;
/// Timeout register
pub const TIMEOUTR: usize = 0x14;
/// Interrupt and status register
pub const ISR: usize = 0x18;
/// Interrupt clear register
pub const ICR: usize = 0x1C;
/// PEC register
pub const PECR: usize = 0x20;
/// Receive data register
pub const RXDR: usize = 0x24;
/// Transmit data register
pub const TXDR: usize = 0x28;
/// Autonomous mode control register
pub const AUTOCR: usize = 0x2C;

} // verus!
