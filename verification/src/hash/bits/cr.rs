use vstd::prelude::*;

verus! {

/// Algorithm Selection (ALGO)
pub const ALGO_MASK: u32 = 0b111 << 0;
pub const ALGO_SHA1: u32 = 0b000 << 0;
pub const ALGO_MD5: u32 = 0b001 << 0;
pub const ALGO_SHA224: u32 = 0b010 << 0;
pub const ALGO_SHA256: u32 = 0b011 << 0;
/// Data Type (DATATYPE)
pub const DATATYPE_MASK: u32 = 0b11 << 4;
pub const DATATYPE_WORD: u32 = 0b00 << 4;
pub const DATATYPE_HALFWORD: u32 = 0b01 << 4;
pub const DATATYPE_BYTE: u32 = 0b10 << 4;
pub const DATATYPE_BIT: u32 = 0b11 << 4;
/// Mode Selection (MODE)
pub const MODE: u32 = 1 << 6;
/// DMA Enable (DMAE)
pub const DMAE: u32 = 1 << 3;
/// Initialize message digest (INIT)
pub const INIT: u32 = 1 << 2;

} // verus!
