use vstd::prelude::*;

verus! {

pub const ETZPC_LOCK: u32 = 1 << 31;

} // verus!
