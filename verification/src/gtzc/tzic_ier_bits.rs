use vstd::prelude::*;

verus! {

pub const IT_PENDING1: u32 = 1 << 0;
pub const IT_PENDING2: u32 = 1 << 1;
pub const IT_PENDING3: u32 = 1 << 2;
pub const IT_PENDING4: u32 = 1 << 3;
pub const IT_PENDING5: u32 = 1 << 4;
pub const IT_PENDING6: u32 = 1 << 5;
pub const IT_PENDING7: u32 = 1 << 6;
pub const IT_PENDING8: u32 = 1 << 7;
pub const IT_PENDING9: u32 = 1 << 8;
pub const IT_PENDING10: u32 = 1 << 9;
pub const IT_PENDING11: u32 = 1 << 10;
pub const IT_PENDING12: u32 = 1 << 11;
pub const IT_PENDING13: u32 = 1 << 12;
pub const IT_PENDING14: u32 = 1 << 13;
pub const IT_PENDING15: u32 = 1 << 14;
pub const IT_PENDING16: u32 = 1 << 15;
pub const IT_PENDING17: u32 = 1 << 16;
pub const IT_PENDING18: u32 = 1 << 17;
pub const IT_PENDING19: u32 = 1 << 18;
pub const IT_PENDING20: u32 = 1 << 19;
pub const IT_PENDING21: u32 = 1 << 20;
pub const IT_PENDING22: u32 = 1 << 21;
pub const IT_PENDING23: u32 = 1 << 22;
pub const IT_PENDING24: u32 = 1 << 23;
pub const IT_PENDING25: u32 = 1 << 24;
pub const IT_PENDING26: u32 = 1 << 25;
pub const IT_PENDING27: u32 = 1 << 26;
pub const IT_PENDING28: u32 = 1 << 27;
pub const IT_PENDING29: u32 = 1 << 28;
pub const IT_PENDING30: u32 = 1 << 29;
pub const IT_PENDING31: u32 = 1 << 30;

} // verus!
