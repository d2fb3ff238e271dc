use vstd::prelude::*;

verus! {

/// Ready for Data Input (RDYIN)
pub const RDYIN: u32 = 1 << 0;
/// Ready for Data Output (RDYOUT)
pub const RDYOUT: u32 = 1 << 1;
/// End of Conversion (EOC)
pub const EOC: u32 = 1 << 2;
/// Header Parsed (HDP)
pub const HDP: u32 = 1 << 3;
/// FIFO Empty (FEF)
pub const FEF: u32 = 1 << 4;
/// FIFO Full (FFF)
pub const FFF: u32 = 1 << 5;

} // verus!
