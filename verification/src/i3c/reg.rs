use vstd::prelude::*;

verus! {

/// Control register
pub const CR: usize = 0x00;
/// Status register
pub const SR: usize = 0x04;
/// Interrupt enable register
pub const IER: usize = 0x08;
/// Interrupt status register
pub const ISR: usize = 0x0C;
/// Interrupt clear register
pub const ICR: usize = 0x10;
/// Timing register 1
pub const TIMINGR1: usize = 0x14;
/// Timing register 2
pub const TIMINGR2: usize = 0x18;
/// Timing register 3
pub const TIMINGR3: usize = 0x1C;
/// Data receive register
/// Address and command register (I3C_ADDR_CMD)
pub const ADDR_CMD: usize = 0x20;
pub const RXDR: usize = 0x24;
/// Data transmit register
pub const TXDR: usize = 0x28;
/// Control clear register
pub const CCR: usize = 0x2C;
/// Timing register 4
pub const TIMINGR4: usize = 0x30;
/// Timing register 5
pub const TIMINGR5: usize = 0x34;

} // verus!
