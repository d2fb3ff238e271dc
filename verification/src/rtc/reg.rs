use vstd::prelude::*;

verus! {

/// RTC time register
pub const TR: usize = 0x00;
/// RTC date register
pub const DR: usize = 0x04;
/// RTC sub second register
pub const SSR: usize = 0x08;
/// RTC initialization control and status register
pub const ICSR: usize = 0x0C;
/// RTC prescaler register
pub const PRER: usize = 0x10;
/// RTC wakeup timer register
pub const WUTR: usize = 0x14;
/// RTC control register
pub const CR: usize = 0x18;
/// RTC write protection register
pub const WPR: usize = 0x24;
/// RTC calibration register
pub const CALR: usize = 0x28;
/// RTC shift control register
pub const SHIFTR: usize = 0x2C;
/// RTC time stamp time register
pub const TSTR: usize = 0x30;
/// RTC time stamp date register
pub const TSDR: usize = 0x34;
/// RTC time stamp sub second register
pub const TSSSR: usize = 0x38;
/// RTC alarm A register
pub const ALRMAR: usize = 0x40;
/// RTC alarm A sub second register
pub const ALRMASSR: usize = 0x44;
/// RTC alarm B register
pub const ALRMBR: usize = 0x48;
/// RTC alarm B sub second register
pub const ALRMBSSR: usize = 0x4C;
/// RTC status register
pub const SR: usize = 0x50;
/// RTC masked interrupt status register
pub const MISR: usize = 0x54;
/// RTC status clear register
pub const SCR: usize = 0x5C;
/// RTC alarm A binary register
pub const ALRABINR: usize = 0x70;
/// RTC alarm B binary register
pub const ALRBBINR: usize = 0x74;

} // verus!
