use vstd::prelude::*;

verus! {

pub const EIWUL: u32 = 1 << 0;
pub const REGSEL: u32 = 1 << 1;
pub const FSTEN: u32 = 1 << 2;
pub const UCPD_DBDIS: u32 = 1 << 6;
pub const UCPD_STDBY: u32 = 1 << 7;
pub const EWUP1: u32 = 1 << 8;
pub const EWUP2: u32 = 1 << 9;
pub const EWUP3: u32 = 1 << 10;
pub const EWUP4: u32 = 1 << 11;
pub const EWUP5: u32 = 1 << 12;
pub const EWUP6: u32 = 1 << 13;
pub const EWUP7: u32 = 1 << 14;
pub const EWUP8: u32 = 1 << 15;

} // verus!
