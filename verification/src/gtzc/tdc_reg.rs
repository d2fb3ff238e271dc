use vstd::prelude::*;

verus! {

pub const CR: usize = 0x00;
pub const SR: usize = 0x04;

} // verus!
