use vstd::prelude::*;

verus! {

/// ADC enable
pub const ADEN: u32 = 1 << 0;
/// ADC disable
pub const ADDIS: u32 = 1 << 1;
/// ADC start conversion
pub const ADSTART: u32 = 1 << 2;
/// ADC stop conversion
pub const ADSTP: u32 = 1 << 4;
/// ADC voltage regulator enable
pub const ADVREGEN: u32 = 1 << 28;
/// ADC calibration
pub const ADCAL: u32 = 1 << 31;
/// ADC linearity calibration
pub const ADCALLIN: u32 = 1 << 30;

} // verus!
