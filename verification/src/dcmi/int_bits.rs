use vstd::prelude::*;

verus! {

/// Frame interrupt
pub const FRAME: u32 = 1 << 0;
/// Overrun interrupt
pub const OVR: u32 = 1 << 1;
/// Error interrupt
pub const ERR: u32 = 1 << 2;
/// VSYNC interrupt
pub const VSYNC: u32 = 1 << 3;
/// Line interrupt
pub const LINE: u32 = 1 << 4;

} // verus!
