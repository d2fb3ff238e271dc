use vstd::prelude::*;

verus! {

/// Resolution
pub const RES: u32 = 0b11 << 3;
/// Continuous conversion
pub const CONT: u32 = 1 << 13;
/// Overrun mode
pub const OVRMOD: u32 = 1 << 12;
/// DMA enable
pub const DMAEN: u32 = 1 << 0;
/// Scan mode
pub const SCAN: u32 = 1 << 5;
/// Discontinuous mode
pub const DISCEN: u32 = 1 << 1;

} // verus!
