use vstd::prelude::*;

verus! {

/// RBNE
pub const RBNE: u32 = 1 << 0;
/// TBE
pub const TBE: u32 = 1 << 1;
/// BUSY
pub const BUSY: u32 = 1 << 2;
/// OVR
pub const OVR: u32 = 1 << 3;

} // verus!
