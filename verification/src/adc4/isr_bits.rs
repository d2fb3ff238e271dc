use vstd::prelude::*;

verus! {

/// ADC ready
pub const ADRDY: u32 = 1 << 0;
/// End of conversion
pub const EOC: u32 = 1 << 2;
/// End of sequence
pub const EOS: u32 = 1 << 3;
/// Analog watchdog 1
pub const AWD1: u32 = 1 << 7;

} // verus!
