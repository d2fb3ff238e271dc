use vstd::prelude::*;

verus! {

/// DLYB control register
pub const CR: usize = 0x00;
/// DLYB configuration register
pub const CFGR: usize = 0x04;

} // verus!
