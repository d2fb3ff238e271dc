use vstd::prelude::*;

verus! {

/// Data width
pub const DDW: u32 = 1 << 0;
/// Bus width
pub const DBW: u32 = 1 << 4;
/// Control signal
pub const CKPOL: u32 = 0b11 << 6;
/// Ready polarity
pub const RDEPOL: u32 = 1 << 8;
/// Output enable
pub const OUTEN: u32 = 1 << 16;
/// DMA enable
pub const DMAEN: u32 = 1 << 17;
/// Continuous mode
pub const DC: u32 = 1 << 18;
/// PSSI enable
pub const PSSIEN: u32 = 1 << 14;
/// Transfer start
pub const START: u32 = 1 << 15;

} // verus!
