use vstd::prelude::*;

verus! {

/// CRC data register
pub const DR: usize = 0x00;
/// CRC independent data register
pub const IDR: usize = 0x04;
/// CRC control register
pub const CR: usize = 0x08;
/// CRC initial value register
pub const INIT: usize = 0x10;
/// CRC polynomial register
pub const POL: usize = 0x14;

} // verus!
