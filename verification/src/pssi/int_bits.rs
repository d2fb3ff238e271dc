use vstd::prelude::*;

verus! {

/// RBNE interrupt
pub const RBNE: u32 = 1 << 0;
/// TBE interrupt
pub const TBE: u32 = 1 << 1;
/// BUSY interrupt
pub const BUSY: u32 = 1 << 2;
/// OVR interrupt
pub const OVR: u32 = 1 << 3;

} // verus!
