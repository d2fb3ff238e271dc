use vstd::prelude::*;

verus! {

pub const IRS: u32 = 1 << 0;
pub const ILS: u32 = 1 << 1;
pub const IFS: u32 = 1 << 2;
pub const ILFS: u32 = 1 << 3;
pub const PEF: u32 = 1 << 5;
pub const PTER: u32 = 1 << 5;
pub const RB0: u32 = 1 << 6;
pub const RB1: u32 = 1 << 7;

} // verus!
