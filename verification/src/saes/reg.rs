use vstd::prelude::*;

verus! {

/// SAES control register
pub const CR: usize = 0x00;
/// SAES status register
pub const SR: usize = 0x04;
/// SAES data input register
pub const DINR: usize = 0x08;
/// SAES data output register
pub const DOUTR: usize = 0x0C;
/// SAES key register 0
pub const KEYR0: usize = 0x10;
/// SAES key register 1
pub const KEYR1: usize = 0x14;
/// SAES key register 2
pub const KEYR2: usize = 0x18;
/// SAES key register 3
pub const KEYR3: usize = 0x1C;
/// SAES initialization vector register 0
pub const IVR0: usize = 0x20;
/// SAES initialization vector register 1
pub const IVR1: usize = 0x24;
/// SAES initialization vector register 2
pub const IVR2: usize = 0x28;
/// SAES initialization vector register 3
pub const IVR3: usize = 0x2C;
/// SAES key extension register 0
pub const KEYEXT0: usize = 0x30;
/// SAES key extension register 1
pub const KEYEXT1: usize = 0x34;
/// SAES key extension register 2
pub const KEYEXT2: usize = 0x38;
/// SAES key extension register 3
pub const KEYEXT3: usize = 0x3C;
/// SAES key extension register 4
pub const KEYEXT4: usize = 0x40;
/// SAES key extension register 5
pub const KEYEXT5: usize = 0x44;
/// SAES key extension register 6
pub const KEYEXT6: usize = 0x48;
/// SAES key extension register 7
pub const KEYEXT7: usize = 0x4C;

} // verus!
