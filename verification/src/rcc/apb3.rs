use vstd::prelude::*;

verus! {

/// RTC
pub const RTC: u32 = 1 << 0;
/// VREFBUF
pub const VREFBUF: u32 = 1 << 1;
/// COMP
pub const COMP: u32 = 1 << 2;
/// UCPD 1 / USB Type-C PD 1
pub const UCPD1: u32 = 1 << 8;
/// UCPD 2 / USB Type-C PD 2
pub const UCPD2: u32 = 1 << 9;
/// MDF
pub const MDF: u32 = 1 << 12;
/// ADF
pub const ADF: u32 = 1 << 13;

} // verus!
