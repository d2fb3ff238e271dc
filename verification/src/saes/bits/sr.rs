use vstd::prelude::*;

verus! {

/// Busy Flag (BUSY)
pub const BUSY: u32 = 1 << 0;
/// Write FIFO Empty (WRERR)
pub const WRERR: u32 = 1 << 1;
/// Read FIFO Empty (RDERR)
pub const RDERR: u32 = 1 << 2;
/// Computation Complete (CCF)
pub const CCF: u32 = 1 << 3;
/// Key Derivation Complete (KDCF)
pub const KDCF: u32 = 1 << 4;

} // verus!
