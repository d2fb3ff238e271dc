use vstd::prelude::*;

verus! {

/// JPEG Control Register (JPEG_CR)
/// RM0456, Section 46.7.1, page 1932
pub const CR: usize = 0x00;
/// JPEG Status Register (JPEG_SR)
/// RM0456, Section 46.7.2, page 1935
pub const SR: usize = 0x04;
/// JPEG Configuration Register 1 (JPEG_CONFR1)
/// RM0456, Section 46.7.3, page 1937
pub const CONFR1: usize = 0x08;
/// JPEG Configuration Register 2 (JPEG_CONFR2)
pub const CONFR2: usize = 0x0C;
/// JPEG Configuration Register 3 (JPEG_CONFR3)
pub const CONFR3: usize = 0x10;
/// JPEG Configuration Register 4 (JPEG_CONFR4)
pub const CONFR4: usize = 0x14;
/// JPEG Data Input Register (JPEG_DIR)
pub const DIR: usize = 0x20;
/// JPEG Data Output Register (JPEG_DOR)
pub const DOR: usize = 0x24;

} // verus!
