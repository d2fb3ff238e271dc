use vstd::prelude::*;

verus! {

/// HSYNC
pub const HSYNC: u32 = 1 << 0;
/// VSYNC
pub const VSYNC: u32 = 1 << 1;
/// FIFO not empty
pub const FNE: u32 = 1 << 2;

} // verus!
