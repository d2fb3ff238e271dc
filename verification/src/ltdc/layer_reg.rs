use vstd::prelude::*;

verus! {

pub const L1CR: usize = 0x84;
pub const L1WHPCR: usize = 0x88;
pub const L1WVPCR: usize = 0x8C;
pub const L1CKCR: usize = 0x90;
pub const L1PFCR: usize = 0x94;
pub const L1CACR: usize = 0x98;
pub const L1DCCR: usize = 0x9C;
pub const L1BFCR: usize = 0xA0;
pub const L1CFBAR: usize = 0xAC;
pub const L1CFBLR: usize = 0xB0;
pub const L1CFBLNR: usize = 0xB4;
pub const L1CLUTWR: usize = 0xC4;

} // verus!
