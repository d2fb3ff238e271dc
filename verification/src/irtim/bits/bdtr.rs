use vstd::prelude::*;

verus! {

/// Dead-time Generator Enable
pub const DTG: u32 = 0xFF << 0;
/// Lock Configuration
pub const LOCK: u32 = 0b11 << 8;
/// Off-state Selection for Idle mode
pub const OSSI: u32 = 1 << 10;
/// Off-state Selection for Run mode
pub const OSSR: u32 = 1 << 11;
/// Break Enable
pub const BKE: u32 = 1 << 12;
/// Break Polarity
pub const BKP: u32 = 1 << 13;
/// Automatic Output Enable
pub const AOE: u32 = 1 << 14;
/// Main Output Enable
pub const MOE: u32 = 1 << 15;

} // verus!
