use vstd::prelude::*;

verus! {

/// Capture/Compare 1 Selection
pub const CC1S: u32 = 0b11 << 0;
/// Output Compare 1 Fast Enable
pub const OC1FE: u32 = 1 << 2;
/// Output Compare 1 Preload Enable
pub const OC1PE: u32 = 1 << 3;
/// Output Compare 1 Mode
pub const OC1M: u32 = 0b111 << 4;
/// Output Compare 1 Clear Enable
pub const OC1CE: u32 = 1 << 7;
/// Capture/Compare 2 Selection
pub const CC2S: u32 = 0b11 << 8;
/// Output Compare 2 Fast Enable
pub const OC2FE: u32 = 1 << 10;
/// Output Compare 2 Preload Enable
pub const OC2PE: u32 = 1 << 11;
/// Output Compare 2 Mode
pub const OC2M: u32 = 0b111 << 12;
/// Output Compare 2 Clear Enable
pub const OC2CE: u32 = 1 << 15;
/// Output Compare 1 Mode bit 3
pub const OC1M_3: u32 = 1 << 16;
/// Output Compare 2 Mode bit 3
pub const OC2M_3: u32 = 1 << 24;

} // verus!
