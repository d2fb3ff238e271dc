use vstd::prelude::*;

verus! {

/// Instruction
pub const INST: u32 = 0xFF << 0;
/// Instruction mode
pub const IMODE: u32 = 0b111 << 8;
/// Address mode
pub const ADMODE: u32 = 0b111 << 10;
/// Address size
pub const ADSIZE: u32 = 0b11 << 12;
/// Alternate bytes mode
pub const ABMODE: u32 = 0b111 << 14;
/// Alternate bytes size
pub const ABSIZE: u32 = 0b11 << 16;
/// Data mode
pub const DMODE: u32 = 0b111 << 18;
/// Number of dummy cycles
pub const DCYC: u32 = 0b11111 << 20;
/// Functional mode
pub const FMODE: u32 = 0b11 << 26;
/// Busy clear
pub const BUSYCLR: u32 = 1 << 28;
/// DDR mode
pub const DDR: u32 = 1 << 29;
/// Double data rate command
pub const DDRCMD: u32 = 1 << 30;

} // verus!
