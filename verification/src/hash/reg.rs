use vstd::prelude::*;

verus! {

/// HASH Control Register (HASH_CR)
/// RM0456, Section 51.7.1, page 2146
pub const CR: usize = 0x00;
/// HASH Status Register (HASH_SR)
/// RM0456, Section 51.7.2, page 2148
pub const SR: usize = 0x04;
/// HASH Data Input Register (HASH_DIN)
/// RM0456, Section 51.7.3, page 2149
pub const DIN: usize = 0x08;
/// HASH Start Register (HASH_STR)
/// RM0456, Section 51.7.4, page 2150
pub const STR: usize = 0x0C;
/// HASH Digest Register 0 (HASH_HR0)
/// RM0456, Section 51.7.5, page 2151
pub const HR0: usize = 0x310;
/// HASH Digest Register 1 (HASH_HR1)
pub const HR1: usize = 0x314;
/// HASH Digest Register 2 (HASH_HR2)
pub const HR2: usize = 0x318;
/// HASH Digest Register 3 (HASH_HR3)
pub const HR3: usize = 0x31C;
/// HASH Digest Register 4 (HASH_HR4)
pub const HR4: usize = 0x320;
/// HASH Digest Register 5 (HASH_HR5)
pub const HR5: usize = 0x324;
/// HASH Digest Register 6 (HASH_HR6)
pub const HR6: usize = 0x328;
/// HASH Digest Register 7 (HASH_HR7)
pub const HR7: usize = 0x32C;
/// HASH Context Swap Registers (HASH_CSRx)
/// RM0456, Section 51.7.11, page 2163
pub const CSR0: usize = 0x0F8;

} // verus!
