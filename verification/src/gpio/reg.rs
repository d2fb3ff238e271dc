use vstd::prelude::*;

verus! {

/// GPIO port mode register
pub const MODER: usize = 0x00;
/// GPIO port output type register
pub const OTYPER: usize = 0x04;
/// GPIO port output speed register
pub const OSPEEDR: usize = 0x08;
/// GPIO port pull-up/pull-down register
pub const PUPDR: usize = 0x0C;
/// GPIO port input data register
pub const IDR: usize = 0x10;
/// GPIO port output data register
pub const ODR: usize = 0x14;
/// GPIO port bit set/reset register
pub const BSRR: usize = 0x18;
/// GPIO port configuration lock register
pub const LCKR: usize = 0x1C;
/// GPIO alternate function low register
pub const AFRL: usize = 0x20;
/// GPIO alternate function high register
pub const AFRH: usize = 0x24;
/// GPIO port bit reset register
pub const BRR: usize = 0x28;
/// GPIO port secure configuration register (TrustZone)
pub const SECCFGR: usize = 0x30;

} // verus!
