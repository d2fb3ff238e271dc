use vstd::prelude::*;

verus! {

/// Update Interrupt Clear
pub const UIF: u32 = 1 << 0;
/// Capture/Compare 1 Interrupt Clear
pub const CC1IF: u32 = 1 << 1;
/// Capture/Compare 2 Interrupt Clear
pub const CC2IF: u32 = 1 << 2;
/// Capture/Compare 3 Interrupt Clear
pub const CC3IF: u32 = 1 << 3;
/// Capture/Compare 4 Interrupt Clear
pub const CC4IF: u32 = 1 << 4;
/// COM Interrupt Clear
pub const COMIF: u32 = 1 << 5;
/// Trigger Interrupt Clear
pub const TIF: u32 = 1 << 6;
/// Break Interrupt Clear
pub const BIF: u32 = 1 << 7;

} // verus!
