use vstd::prelude::*;

verus! {

/// Capture/compare preloaded control
pub const CCPC: u32 = 1 << 0;
/// Capture/compare control update selection
pub const CCUS: u32 = 1 << 2;
/// Master mode selection
pub const MMS: u32 = 0b111 << 4;
/// TI1 selection
pub const TI1S: u32 = 1 << 7;
/// Output Idle State 1
pub const OIS1: u32 = 1 << 8;
/// Output Idle State 1N
pub const OIS1N: u32 = 1 << 9;
/// Output Idle State 2
pub const OIS2: u32 = 1 << 10;
/// Output Idle State 2N
pub const OIS2N: u32 = 1 << 11;
/// Output Idle State 3
pub const OIS3: u32 = 1 << 12;
/// Output Idle State 3N
pub const OIS3N: u32 = 1 << 13;
/// Output Idle State 4
pub const OIS4: u32 = 1 << 14;
/// Output Idle State 5
pub const OIS5: u32 = 1 << 16;
/// Output Idle State 6
pub const OIS6: u32 = 1 << 18;

} // verus!
