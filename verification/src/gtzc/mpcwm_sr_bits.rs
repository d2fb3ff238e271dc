use vstd::prelude::*;

verus! {

pub const MPCWM_RDY: u32 = 1 << 0;
pub const MPCWM_BUSY: u32 = 1 << 1;

} // verus!
