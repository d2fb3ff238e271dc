use vstd::prelude::*;

verus! {

/// Control register 1
pub const CR1: usize = 0x00;
/// Control register 2
pub const CR2: usize = 0x04;
/// Control register 3
pub const CR3: usize = 0x08;
/// Baud rate register
pub const BRR: usize = 0x0C;
/// Request register
pub const RQR: usize = 0x18;
/// Interrupt and status register
pub const ISR: usize = 0x1C;
/// Interrupt flag clear register
pub const ICR: usize = 0x20;
/// Receive data register
pub const RDR: usize = 0x24;
/// Transmit data register
pub const TDR: usize = 0x28;
/// Prescaler register
pub const PRESC: usize = 0x2C;

} // verus!
