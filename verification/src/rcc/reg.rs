use vstd::prelude::*;

verus! {

/// Clock control register
pub const CR: usize = 0x00;
/// Internal clock sources calibration register
pub const ICSCR: usize = 0x04;
/// Clock configuration register
pub const CFGR: usize = 0x08;
/// PLL configuration register
pub const PLLCFGR: usize = 0x0C;
/// PLL divider configuration register
pub const PLLDIVR: usize = 0x10;
/// PLL fractional divider register
pub const PLLFRACR: usize = 0x14;
/// Clock interrupt enable register
pub const CIER: usize = 0x18;
/// Clock interrupt flag register
pub const CIFR: usize = 0x1C;
/// Clock interrupt clear register
pub const CICR: usize = 0x20;
/// AHB1 peripheral reset register
pub const AHB1RSTR: usize = 0x28;
/// AHB2 peripheral reset register
pub const AHB2RSTR: usize = 0x2C;
/// AHB3 peripheral reset register
pub const AHB3RSTR: usize = 0x30;
/// APB1 peripheral reset register 1
pub const APB1RSTR1: usize = 0x34;
/// APB1 peripheral reset register 2
pub const APB1RSTR2: usize = 0x38;
/// APB2 peripheral reset register
pub const APB2RSTR: usize = 0x3C;
/// APB3 peripheral reset register
pub const APB3RSTR: usize = 0x40;
/// AHB1 peripheral clock enable register
pub const AHB1ENR: usize = 0x48;
/// AHB2 peripheral clock enable register
pub const AHB2ENR: usize = 0x4C;
/// AHB3 peripheral clock enable register
pub const AHB3ENR: usize = 0x50;
/// APB1 peripheral clock enable register 1
pub const APB1ENR1: usize = 0x54;
/// APB1 peripheral clock enable register 2
pub const APB1ENR2: usize = 0x58;
/// APB2 peripheral clock enable register
pub const APB2ENR: usize = 0x5C;
/// APB3 peripheral clock enable register
pub const APB3ENR: usize = 0x60;
/// AHB1 peripheral clocks enable in Sleep and Stop modes register
pub const AHB1SMENR: usize = 0x68;
/// AHB2 peripheral clocks enable in Sleep and Stop modes register
pub const AHB2SMENR: usize = 0x6C;
/// AHB3 peripheral clocks enable in Sleep and Stop modes register
pub const AHB3SMENR: usize = 0x70;
/// APB1 peripheral clocks enable in Sleep and Stop modes register 1
pub const APB1SMENR1: usize = 0x74;
/// APB1 peripheral clocks enable in Sleep and Stop modes register 2
pub const APB1SMENR2: usize = 0x78;
/// APB2 peripheral clocks enable in Sleep and Stop modes register
pub const APB2SMENR: usize = 0x7C;
/// APB3 peripheral clocks enable in Sleep and Stop modes register
pub const APB3SMENR: usize = 0x80;
/// Peripherals independent clock configuration register 1
pub const CCIPR1: usize = 0x88;
/// Peripherals independent clock configuration register 2
pub const CCIPR2: usize = 0x8C;
/// Peripherals independent clock configuration register 3
pub const CCIPR3: usize = 0x90;
/// Backup domain control register
pub const BDCR: usize = 0x94;
/// Control/status register
pub const CSR: usize = 0x98;
/// AHB3 peripheral clock enable register 2
pub const AHB3ENR2: usize = 0x9C;

} // verus!
