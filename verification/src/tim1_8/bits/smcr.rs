use vstd::prelude::*;

verus! {

/// Slave mode selection
pub const SMS: u32 = 0b111 << 0;
/// Trigger selection
pub const TS: u32 = 0b111 << 4;
/// Master/Slave mode
pub const MSM: u32 = 1 << 7;
/// External trigger filter
pub const ETF: u32 = 0b1111 << 8;
/// External trigger prescaler
pub const ETPS: u32 = 0b11 << 12;
/// External clock enable
pub const ECE: u32 = 1 << 14;
/// External trigger polarity
pub const ETP: u32 = 1 << 15;
/// Slave mode selection bit 3
pub const SMS_3: u32 = 1 << 16;

} // verus!
