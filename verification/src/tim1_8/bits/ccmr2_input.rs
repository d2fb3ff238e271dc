use vstd::prelude::*;

verus! {

/// Capture/Compare 3 Selection
pub const CC3S: u32 = 0b11 << 0;
/// Input Capture 3 Prescaler
pub const IC3PSC: u32 = 0b11 << 2;
/// Input Capture 3 Filter
pub const IC3F: u32 = 0b1111 << 4;
/// Capture/Compare 4 Selection
pub const CC4S: u32 = 0b11 << 8;
/// Input Capture 4 Prescaler
pub const IC4PSC: u32 = 0b11 << 10;
/// Input Capture 4 Filter
pub const IC4F: u32 = 0b1111 << 12;

} // verus!
