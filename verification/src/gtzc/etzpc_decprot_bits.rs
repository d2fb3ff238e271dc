use vstd::prelude::*;

verus! {

pub const LOCK: u32 = 1 << 0;
pub const SEC: u32 = 1 << 1;
pub const PROTVEC0: u32 = 1 << 16;
pub const PROTVEC1: u32 = 1 << 17;
pub const PROTVEC2: u32 = 1 << 18;
pub const PROTVEC3: u32 = 1 << 19;
pub const PROTVEC4: u32 = 1 << 20;
pub const PROTVEC5: u32 = 1 << 21;
pub const PROTVEC6: u32 = 1 << 22;
pub const PROTVEC7: u32 = 1 << 23;

} // verus!
