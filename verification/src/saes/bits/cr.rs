use vstd::prelude::*;

verus! {

/// SAES Enable (EN)
pub const EN: u32 = 1 << 0;
/// Algorithm Mode (ALGOMODE)
pub const ALGOMODE_MASK: u32 = 0b111 << 1;
pub const ALGOMODE_ECB: u32 = 0b000 << 1;
pub const ALGOMODE_CBC: u32 = 0b001 << 1;
pub const ALGOMODE_CTR: u32 = 0b010 << 1;
pub const ALGOMODE_GCM: u32 = 0b011 << 1;
pub const ALGOMODE_CCM: u32 = 0b100 << 1;
/// Key Size (KEYSIZE)
pub const KEYSIZE_MASK: u32 = 0b11 << 4;
pub const KEYSIZE_128: u32 = 0b00 << 4;
pub const KEYSIZE_192: u32 = 0b01 << 4;
pub const KEYSIZE_256: u32 = 0b10 << 4;
/// Chaining Mode (CHMOD)
pub const CHMOD_MASK: u32 = 0b111 << 6;
pub const CHMOD_ECB: u32 = 0b000 << 6;
pub const CHMOD_CBC: u32 = 0b001 << 6;
pub const CHMOD_CTR: u32 = 0b010 << 6;
pub const CHMOD_GCM: u32 = 0b011 << 6;
pub const CHMOD_CCM: u32 = 0b100 << 6;
/// DMA Enable (DMAEN)
pub const DMAEN: u32 = 1 << 11;
/// Data Type (DATATYPE)
pub const DATATYPE_MASK: u32 = 0b11 << 12;
pub const DATATYPE_WORD: u32 = 0b00 << 12;
pub const DATATYPE_HALFWORD: u32 = 0b01 << 12;
pub const DATATYPE_BYTE: u32 = 0b10 << 12;
pub const DATATYPE_BIT: u32 = 0b11 << 12;
/// Key Selection (KEYSEL)
pub const KEYSEL_MASK: u32 = 0b111 << 16;
pub const KEYSEL_SW: u32 = 0b000 << 16;
pub const KEYSEL_HUK: u32 = 0b001 << 16;
pub const KEYSEL_BHK: u32 = 0b010 << 16;
pub const KEYSEL_KL: u32 = 0b011 << 16;
/// Key Derivation Enable (KDEN)
pub const KDEN: u32 = 1 << 23;
/// Key Derivation Mode (KDMOD)
pub const KDMOD_MASK: u32 = 0b11 << 24;

} // verus!
