use vstd::prelude::*;

verus! {

pub const IT_PENDING1: u32 = 1 << 0;
pub const IT_PENDING2: u32 = 1 << 1;
pub const IT_PENDING3: u32 = 1 << 2;
pub const IT_PENDING4: u32 = 1 << 3;
pub const IT_PENDING5: u32 = 1 << 4;
pub const IT_PENDING6: u32 = 1 << 5;
pub const IT_PENDING7: u32 = 1 << 6;
pub const IT_PENDING8: u32 = 1 << 7;

} // verus!
