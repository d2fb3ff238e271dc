use vstd::prelude::*;

verus! {

/// DMA Base Address
pub const DBA: u32 = 0b11111 << 0;
/// DMA Burst Length
pub const DBL: u32 = 0b11111 << 8;

} // verus!
