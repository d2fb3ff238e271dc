use vstd::prelude::*;

verus! {

pub const TDCEN: u32 = 1 << 0;
pub const TDC_STATE: u32 = 1 << 16;
pub const TDC_LOCK: u32 = 1 << 31;

} // verus!
