use vstd::prelude::*;

verus! {

/// DMA1
pub const DMA1: u32 = 1 << 0;
/// DMA2
pub const DMA2: u32 = 1 << 1;
/// DMAMUX1
pub const DMAMUX1: u32 = 1 << 2;
/// DMAMUX2
pub const DMAMUX2: u32 = 1 << 3;
/// Flash memory interface
pub const FLASH: u32 = 1 << 8;
/// CRC calculation unit
pub const CRC: u32 = 1 << 12;
/// Touch sensing controller
pub const TSC: u32 = 1 << 16;
/// RAM configuration controller
pub const RAMCFG: u32 = 1 << 17;
/// MDMA controller
pub const MDMA: u32 = 1 << 20;

} // verus!
