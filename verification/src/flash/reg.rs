use vstd::prelude::*;

verus! {

/// Flash access control register
pub const ACR: usize = 0x00;
/// Flash key register
pub const KEYR: usize = 0x08;
/// Flash option key register
pub const OPTKEYR: usize = 0x0C;
/// Flash status register
pub const SR: usize = 0x10;
/// Flash control register
pub const CR: usize = 0x14;
/// Flash ECC register
pub const ECC: usize = 0x18;
/// Flash option control register
pub const OPTR: usize = 0x20;
/// Flash non-secure status register
pub const NSSR: usize = 0x24;
/// Flash secure status register
pub const SECSR: usize = 0x28;
/// Flash secure control register
pub const SECCR: usize = 0x2C;

} // verus!
