use vstd::prelude::*;

verus! {

/// Compare match
pub const CMPM: u32 = 1 << 0;
/// Autoreload match
pub const ARRM: u32 = 1 << 1;
/// External trigger edge
pub const EXTTRIG: u32 = 1 << 2;
/// Compare register update
pub const CMPOK: u32 = 1 << 3;
/// Autoreload register update
pub const ARROK: u32 = 1 << 4;
/// Counter direction change
pub const UP: u32 = 1 << 5;
/// Counter overflow
pub const DOWN: u32 = 1 << 6;

} // verus!
