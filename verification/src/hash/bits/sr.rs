use vstd::prelude::*;

verus! {

/// Input FIFO Not Full (DINIS)
pub const DINIS: u32 = 1 << 0;
/// Digest Calculation Complete (DCIS)
pub const DCIS: u32 = 1 << 1;
/// DMA Input FIFO Service Request (DMAS)
pub const DMAS: u32 = 1 << 2;
/// Busy Flag (BUSY)
pub const BUSY: u32 = 1 << 3;

} // verus!
