use vstd::prelude::*;

verus! {

/// Transfer in progress
pub const TIP: u32 = 1 << 0;
/// HyperBus busy
pub const HBBY: u32 = 1 << 1;
/// Status flag
pub const STATUS: u32 = 1 << 2;
/// Timeout flag
pub const TOF: u32 = 1 << 3;
/// Transfer error flag
pub const TEF: u32 = 1 << 4;
/// Transfer complete flag
pub const TCF: u32 = 1 << 5;
/// Match flag
pub const MF: u32 = 1 << 6;

} // verus!
