use vstd::prelude::*;

verus! {

/// DCMI Control Register
pub const CR: usize = 0x00;
/// DCMI Status Register
pub const SR: usize = 0x04;
/// DCMI Raw Interrupt Status Register
pub const RIS: usize = 0x08;
/// DCMI Interrupt Enable Register
pub const IER: usize = 0x0C;
/// DCMI Masked Interrupt Status Register
pub const MIS: usize = 0x10;
/// DCMI Interrupt Clear Register
pub const ICR: usize = 0x14;
/// DCMI Embedded Synchronization Code Register
pub const ESCR: usize = 0x18;
/// DCMI Embedded Synchronization Unmask Register
pub const ESUR: usize = 0x1C;
/// DCMI Crop Window Start Register
pub const CWSTRT: usize = 0x20;
/// DCMI Crop Window Size Register
pub const CWSIZE: usize = 0x24;
/// DCMI Data Register
pub const DR: usize = 0x28;
/// DCMI Peripheral Clock Size Register
pub const PCKSIZE: usize = 0x30;

} // verus!
