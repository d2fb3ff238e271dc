use vstd::prelude::*;

verus! {

/// ADC Interrupt and Status Register
pub const ISR: usize = 0x00;
/// ADC Interrupt Enable Register
pub const IER: usize = 0x04;
/// ADC Control Register
pub const CR: usize = 0x08;
/// ADC Configuration Register
pub const CFGR: usize = 0x0C;
/// ADC Configuration Register 2
pub const CFGR2: usize = 0x10;
/// ADC Sample Time Register 1
pub const SMPR1: usize = 0x14;
/// ADC Sample Time Register 2
pub const SMPR2: usize = 0x18;
/// ADC Watchdog Threshold Register 1
pub const TR1: usize = 0x20;
/// ADC Watchdog Threshold Register 2
pub const TR2: usize = 0x24;
/// ADC Watchdog Threshold Register 3
pub const TR3: usize = 0x28;
/// ADC Regular Sequence Register 1
pub const SQR1: usize = 0x30;
/// ADC Regular Sequence Register 2
pub const SQR2: usize = 0x34;
/// ADC Regular Sequence Register 3
pub const SQR3: usize = 0x38;
/// ADC Regular Sequence Register 4
pub const SQR4: usize = 0x3C;
/// ADC Regular Data Register
pub const DR: usize = 0x40;
/// ADC Injected Sequence Register
pub const JSQR: usize = 0x4C;
/// ADC Offset Register 1
pub const OFR1: usize = 0x60;
/// ADC Offset Register 2
pub const OFR2: usize = 0x64;
/// ADC Offset Register 3
pub const OFR3: usize = 0x68;
/// ADC Offset Register 4
pub const OFR4: usize = 0x6C;
/// ADC Injected Data Register 1
pub const JDR1: usize = 0x80;
/// ADC Injected Data Register 2
pub const JDR2: usize = 0x84;
/// ADC Injected Data Register 3
pub const JDR3: usize = 0x88;
/// ADC Injected Data Register 4
pub const JDR4: usize = 0x8C;
/// ADC Analog Watchdog 2 Configuration Register
pub const AWD2CR: usize = 0xA0;
/// ADC Analog Watchdog 3 Configuration Register
pub const AWD3CR: usize = 0xA4;
/// ADC Differential Mode Selection Register
pub const DIFSEL: usize = 0xB0;
/// ADC Calibration Factors Register
pub const CALFACT: usize = 0xB4;

} // verus!
