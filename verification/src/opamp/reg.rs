use vstd::prelude::*;

verus! {

pub const CSR: usize = 0x00;
pub const OTR: usize = 0x04;
pub const LPOTR: usize = 0x08;

} // verus!
