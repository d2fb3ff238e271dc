use vstd::prelude::*;

verus! {

/// Update Interrupt Flag
pub const UIF: u32 = 1 << 0;
/// Capture/Compare 1 Interrupt Flag
pub const CC1IF: u32 = 1 << 1;
/// Capture/Compare 2 Interrupt Flag
pub const CC2IF: u32 = 1 << 2;
/// Capture/Compare 3 Interrupt Flag
pub const CC3IF: u32 = 1 << 3;
/// Capture/Compare 4 Interrupt Flag
pub const CC4IF: u32 = 1 << 4;
/// COM Interrupt Flag
pub const COMIF: u32 = 1 << 5;
/// Trigger Interrupt Flag
pub const TIF: u32 = 1 << 6;
/// Break Interrupt Flag
pub const BIF: u32 = 1 << 7;
/// Capture/Compare 1 Overcapture Flag
pub const CC1OF: u32 = 1 << 9;
/// Capture/Compare 2 Overcapture Flag
pub const CC2OF: u32 = 1 << 10;
/// Capture/Compare 3 Overcapture Flag
pub const CC3OF: u32 = 1 << 11;
/// Capture/Compare 4 Overcapture Flag
pub const CC4OF: u32 = 1 << 12;
/// Capture/Compare 5 Interrupt Flag
pub const CC5IF: u32 = 1 << 16;
/// Capture/Compare 6 Interrupt Flag
pub const CC6IF: u32 = 1 << 17;

} // verus!
