use vstd::prelude::*;

verus! {

pub const MPCWMEN: u32 = 1 << 0;
pub const TZEN: u32 = 1 << 1;
pub const MPCWM_STATE: u32 = 1 << 16;
pub const MPCWM_LOCK: u32 = 1 << 31;

} // verus!
