use vstd::prelude::*;

verus! {

pub const LPMS: u32 = 0b111 << 0;
pub const VBE: u32 = 1 << 8;
pub const VBR: u32 = 1 << 9;
pub const DBP: u32 = 1 << 8;
pub const LPmf: u32 = 1 << 11;
pub const APC: u32 = 1 << 15;
pub const RUN_SS: u32 = 1 << 16;
pub const RUN_R1: u32 = 1 << 17;
pub const R1RSEL: u32 = 1 << 18;

} // verus!
