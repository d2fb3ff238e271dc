use vstd::prelude::*;

verus! {

/// Capture/Compare 3 Selection
pub const CC3S: u32 = 0b11 << 0;
/// Output Compare 3 Fast Enable
pub const OC3FE: u32 = 1 << 2;
/// Output Compare 3 Preload Enable
pub const OC3PE: u32 = 1 << 3;
/// Output Compare 3 Mode
pub const OC3M: u32 = 0b111 << 4;
/// Output Compare 3 Clear Enable
pub const OC3CE: u32 = 1 << 7;
/// Capture/Compare 4 Selection
pub const CC4S: u32 = 0b11 << 8;
/// Output Compare 4 Fast Enable
pub const OC4FE: u32 = 1 << 10;
/// Output Compare 4 Preload Enable
pub const OC4PE: u32 = 1 << 11;
/// Output Compare 4 Mode
pub const OC4M: u32 = 0b111 << 12;
/// Output Compare 4 Clear Enable
pub const OC4CE: u32 = 1 << 15;
/// Output Compare 3 Mode bit 3
pub const OC3M_3: u32 = 1 << 16;
/// Output Compare 4 Mode bit 3
pub const OC4M_3: u32 = 1 << 24;

} // verus!
