use vstd::prelude::*;

verus! {

/// Latency mode
pub const LM: u32 = 1 << 0;
/// Latency count
pub const LC: u32 = 0b1111111 << 1;
/// Maximum latency
pub const MAXL: u32 = 0b1111 << 8;

} // verus!
