use vstd::prelude::*;

verus! {

/// Delay line enable
pub const DEN: u32 = 1 << 0;
/// Delay line bypass
pub const SEN: u32 = 1 << 1;

} // verus!
