use vstd::prelude::*;

verus! {

pub const PVDEN: u32 = 1 << 0;
pub const PVDLS: u32 = 0b111 << 1;
pub const PVDRST: u32 = 1 << 4;
pub const VREFEN: u32 = 1 << 8;
pub const VREFRDY: u32 = 1 << 9;
pub const TSEN: u32 = 1 << 12;
pub const TSRDY: u32 = 1 << 13;

} // verus!
