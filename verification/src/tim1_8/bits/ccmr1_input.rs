use vstd::prelude::*;

verus! {

/// Capture/Compare 1 Selection
pub const CC1S: u32 = 0b11 << 0;
/// Input Capture 1 Prescaler
pub const IC1PSC: u32 = 0b11 << 2;
/// Input Capture 1 Filter
pub const IC1F: u32 = 0b1111 << 4;
/// Capture/Compare 2 Selection
pub const CC2S: u32 = 0b11 << 8;
/// Input Capture 2 Prescaler
pub const IC2PSC: u32 = 0b11 << 10;
/// Input Capture 2 Filter
pub const IC2F: u32 = 0b1111 << 12;

} // verus!
