use vstd::prelude::*;

verus! {

/// JPEG Enable (JPEGEN)
pub const JPEGEN: u32 = 1 << 0;
/// Start (START)
pub const START: u32 = 1 << 1;
/// Mode Select (MODSEL)
pub const MODSEL: u32 = 1 << 3;
/// Interrupt Enable (IE)
pub const IE: u32 = 1 << 4;
/// DMA Input Enable (DMAINEN)
pub const DMAINEN: u32 = 1 << 11;
/// DMA Output Enable (DMAOUTEN)
pub const DMAOUTEN: u32 = 1 << 12;
/// FIFO Threshold (FTH)
pub const FTH_MASK: u32 = 0b111 << 6;

} // verus!
