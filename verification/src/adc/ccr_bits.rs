use vstd::prelude::*;

verus! {

/// ADC prescaler
pub const PRESC: u32 = 0b1111 << 18;
/// VREFINT enable
pub const VREFEN: u32 = 1 << 22;
/// Temperature sensor enable
pub const VSENSEEN: u32 = 1 << 23;
/// VBAT enable
pub const VBATEN: u32 = 1 << 24;

} // verus!
