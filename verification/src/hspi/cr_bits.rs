use vstd::prelude::*;

verus! {

/// HSPI enable
pub const EN: u32 = 1 << 0;
/// HyperBus enable
pub const HBEN: u32 = 1 << 1;
/// DMA enable
pub const DMAEN: u32 = 1 << 2;
/// Timeout enable
pub const TOEN: u32 = 1 << 3;
/// Memory-mapped mode enable
pub const MMEN: u32 = 1 << 4;
/// Alternate bytes bytes order
pub const ABORT: u32 = 1 << 5;

} // verus!
