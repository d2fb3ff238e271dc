use vstd::prelude::*;

verus! {

pub const CSR: usize = 0x00;
pub const WDATA: usize = 0x04;
pub const RDATA: usize = 0x08;

} // verus!
