use vstd::prelude::*;

verus! {

/// Clock source selection
pub const CKSEL: u32 = 0b11 << 0;
/// Clock prescaler
pub const PRESC: u32 = 0b111 << 3;
/// Input filter
pub const TRGFLT: u32 = 0b11 << 6;
/// Waveform generation polarity
pub const WAVEPOL: u32 = 1 << 17;
/// Preload enable
pub const PRELOAD: u32 = 1 << 22;

} // verus!
