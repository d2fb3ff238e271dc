use vstd::prelude::*;

verus! {

/// Start
pub const START: u32 = 1 << 0;
/// Suspend
pub const SUSP: u32 = 1 << 1;
/// Abort
pub const ABORT: u32 = 1 << 2;
/// Transfer error interrupt enable
pub const TEIE: u32 = 1 << 8;
/// Transfer complete interrupt enable
pub const TCIE: u32 = 1 << 9;
/// Transfer watermark interrupt enable
pub const TWIE: u32 = 1 << 10;
/// CLUT access error interrupt enable
pub const CAEIE: u32 = 1 << 11;
/// Configuration error interrupt enable
pub const CEIE: u32 = 1 << 12;
/// Mode
pub const MODE: u32 = 0b11 << 16;

} // verus!
