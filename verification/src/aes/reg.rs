use vstd::prelude::*;

verus! {

/// Control register
pub const CR: usize = 0x00;
/// Status register
pub const SR: usize = 0x04;
/// Data input register
pub const DINR: usize = 0x08;
/// Data output register
pub const DOUTR: usize = 0x0C;
/// Key register 0
pub const KEYR0: usize = 0x10;
/// Key register 1
pub const KEYR1: usize = 0x14;
/// Key register 2
pub const KEYR2: usize = 0x18;
/// Key register 3
pub const KEYR3: usize = 0x1C;
/// Initialization Vector register 0
pub const IVR0: usize = 0x20;
/// Initialization Vector register 1
pub const IVR1: usize = 0x24;
/// Initialization Vector register 2
pub const IVR2: usize = 0x28;
/// Initialization Vector register 3
pub const IVR3: usize = 0x2C;
/// Key register 4 (for AES-256)
pub const KEYR4: usize = 0x30;
/// Key register 5 (for AES-256)
pub const KEYR5: usize = 0x34;
/// Key register 6 (for AES-256)
pub const KEYR6: usize = 0x38;
/// Key register 7 (for AES-256)
pub const KEYR7: usize = 0x3C;
/// GCM/CCM Initialization Vector register 0
pub const IVR0_1: usize = 0x40;
/// GCM/CCM Initialization Vector register 1
pub const IVR1_1: usize = 0x44;
/// GCM/CCM Initialization Vector register 2
pub const IVR2_1: usize = 0x48;
/// GCM/CCM Initialization Vector register 3
pub const IVR3_1: usize = 0x4C;

} // verus!
