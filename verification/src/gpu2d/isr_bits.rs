use vstd::prelude::*;

verus! {

/// Transfer error flag
pub const TEIF: u32 = 1 << 0;
/// Transfer complete flag
pub const TCIF: u32 = 1 << 1;
/// Transfer watermark flag
pub const TWIF: u32 = 1 << 2;
/// CLUT access error flag
pub const CAEIF: u32 = 1 << 3;
/// Configuration error flag
pub const CEIF: u32 = 1 << 4;

} // verus!
