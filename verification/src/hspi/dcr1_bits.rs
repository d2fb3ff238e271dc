use vstd::prelude::*;

verus! {

/// Device type
pub const DTYP: u32 = 0b1111 << 0;
/// Memory size
pub const MSIZE: u32 = 0b11111 << 16;
/// Clock mode
pub const CKMODE: u32 = 0b11 << 24;

} // verus!
