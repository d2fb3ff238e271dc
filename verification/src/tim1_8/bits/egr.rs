use vstd::prelude::*;

verus! {

/// Update Generation
pub const UG: u32 = 1 << 0;
/// Capture/Compare 1 Generation
pub const CC1G: u32 = 1 << 1;
/// Capture/Compare 2 Generation
pub const CC2G: u32 = 1 << 2;
/// Capture/Compare 3 Generation
pub const CC3G: u32 = 1 << 3;
/// Capture/Compare 4 Generation
pub const CC4G: u32 = 1 << 4;
/// Capture/Compare Control Update Generation
pub const COMG: u32 = 1 << 5;
/// Trigger Generation
pub const TG: u32 = 1 << 6;
/// Break Generation
pub const BG: u32 = 1 << 7;
/// Capture/Compare 5 Generation
pub const CC5G: u32 = 1 << 16;
/// Capture/Compare 6 Generation
pub const CC6G: u32 = 1 << 17;

} // verus!
