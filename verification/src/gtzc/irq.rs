use vstd::prelude::*;

verus! {

pub const TZIC1_NS: u8 = 0;
pub const TZIC2_NS: u8 = 1;
pub const TZIC3_NS: u8 = 2;
pub const TZIC4_NS: u8 = 3;
pub const TZIC1_S: u8 = 4;
pub const TZIC2_S: u8 = 5;
pub const TZIC3_S: u8 = 6;
pub const TZIC4_S: u8 = 7;

} // verus!
