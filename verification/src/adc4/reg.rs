use vstd::prelude::*;

verus! {

/// ADC4 Interrupt and Status Register
pub const ISR: usize = 0x00;
/// ADC4 Interrupt Enable Register
pub const IER: usize = 0x04;
/// ADC4 Control Register
pub const CR: usize = 0x08;
/// ADC4 Configuration Register
pub const CFGR: usize = 0x0C;
/// ADC4 Configuration Register 2
pub const CFGR2: usize = 0x10;
/// ADC4 Sample Time Register 1
pub const SMPR1: usize = 0x14;
/// ADC4 Watchdog Threshold Register 1
pub const TR1: usize = 0x20;
/// ADC4 Watchdog Threshold Register 2
pub const TR2: usize = 0x24;
/// ADC4 Watchdog Threshold Register 3
pub const TR3: usize = 0x28;
/// ADC4 Regular Sequence Register 1
pub const SQR1: usize = 0x30;
/// ADC4 Regular Sequence Register 2
pub const SQR2: usize = 0x34;
/// ADC4 Regular Sequence Register 3
pub const SQR3: usize = 0x38;
/// ADC4 Regular Sequence Register 4
pub const SQR4: usize = 0x3C;
/// ADC4 Regular Data Register
pub const DR: usize = 0x40;
/// ADC4 Offset Register 1
pub const OFR1: usize = 0x60;
/// ADC4 Analog Watchdog 2 Configuration Register
pub const AWD2CR: usize = 0xA0;
/// ADC4 Analog Watchdog 3 Configuration Register
pub const AWD3CR: usize = 0xA4;
/// ADC4 Differential Mode Selection Register
pub const DIFSEL: usize = 0xB0;
/// ADC4 Calibration Factors Register
pub const CALFACT: usize = 0xB4;

} // verus!
