use vstd::prelude::*;

verus! {

/// Capture/Compare 1 Output Enable
pub const CC1E: u32 = 1 << 0;
/// Capture/Compare 1 Output Polarity
pub const CC1P: u32 = 1 << 1;
/// Capture/Compare 1 Complementary Output Enable
pub const CC1NE: u32 = 1 << 2;
/// Capture/Compare 1 Complementary Output Polarity
pub const CC1NP: u32 = 1 << 3;
/// Capture/Compare 2 Output Enable
pub const CC2E: u32 = 1 << 4;
/// Capture/Compare 2 Output Polarity
pub const CC2P: u32 = 1 << 5;
/// Capture/Compare 2 Complementary Output Enable
pub const CC2NE: u32 = 1 << 6;
/// Capture/Compare 2 Complementary Output Polarity
pub const CC2NP: u32 = 1 << 7;
/// Capture/Compare 3 Output Enable
pub const CC3E: u32 = 1 << 8;
/// Capture/Compare 3 Output Polarity
pub const CC3P: u32 = 1 << 9;
/// Capture/Compare 3 Complementary Output Enable
pub const CC3NE: u32 = 1 << 10;
/// Capture/Compare 3 Complementary Output Polarity
pub const CC3NP: u32 = 1 << 11;
/// Capture/Compare 4 Output Enable
pub const CC4E: u32 = 1 << 12;
/// Capture/Compare 4 Output Polarity
pub const CC4P: u32 = 1 << 13;
/// Capture/Compare 5 Output Enable
pub const CC5E: u32 = 1 << 16;
/// Capture/Compare 5 Output Polarity
pub const CC5P: u32 = 1 << 17;
/// Capture/Compare 6 Output Enable
pub const CC6E: u32 = 1 << 20;
/// Capture/Compare 6 Output Polarity
pub const CC6P: u32 = 1 << 21;

} // verus!
