use vstd::prelude::*;

verus! {

/// Output Compare 5 Mode
pub const OC5M: u32 = 0b111 << 4;
/// Output Compare 5 Preload Enable
pub const OC5PE: u32 = 1 << 3;
/// Output Compare 5 Fast Enable
pub const OC5FE: u32 = 1 << 2;
/// Output Compare 5 Mode bit 3
pub const OC5M_3: u32 = 1 << 16;
/// Output Compare 6 Mode
pub const OC6M: u32 = 0b111 << 20;
/// Output Compare 6 Preload Enable
pub const OC6PE: u32 = 1 << 19;
/// Output Compare 6 Fast Enable
pub const OC6FE: u32 = 1 << 18;
/// Output Compare 6 Mode bit 3
pub const OC6M_3: u32 = 1 << 24;

} // verus!
