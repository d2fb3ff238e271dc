//! SMPS - Switched-Mode Power Supply Controller
//!
//! The STM32U5 SMPS controller offers:
//! - a step-down converter for the core supply
//! - a programmable output voltage (1.0 V - 1.8 V)
//! - a bypass mode
use vstd::prelude::*;
use crate::regs::{self, RegisterWrite, clear_bit, set_bit, set_field, test_bit};
pub mod reg;

verus! {

broadcast use regs::lemma_low_mask_value;

/// SMPS base address
pub const SMPS_BASE: usize = 0x4201_E000;

/// SMPS output voltage (in mV)
#[derive(Clone, Copy, Debug, PartialEq, Eq, Structural)]
pub enum OutputVoltage {
    /// 1.0V
    V1000,
    /// 1.1V
    V1100,
    /// 1.2V
    V1200,
    /// 1.3V
    V1300,
    /// 1.35V
    V1350,
    /// 1.4V
    V1400,
    /// 1.5V
    V1500,
    /// 1.6V
    V1600,
    /// 1.7V
    V1700,
    /// 1.8V
    V1800,
}

impl OutputVoltage {
    /// The register encoding of this value.
    pub open spec fn value(self) -> u32 {
        match self {
            OutputVoltage::V1000 => 0x00u32,
            OutputVoltage::V1100 => 0x01u32,
            OutputVoltage::V1200 => 0x02u32,
            OutputVoltage::V1300 => 0x03u32,
            OutputVoltage::V1350 => 0x04u32,
            OutputVoltage::V1400 => 0x05u32,
            OutputVoltage::V1500 => 06u32,
            OutputVoltage::V1600 => 0x07u32,
            OutputVoltage::V1700 => 0x08u32,
            OutputVoltage::V1800 => 0x09u32,
        }
    }

    /// The register encoding of this value.
    pub fn bits(self) -> (r: u32)
        ensures
            r == self.value(),
    {
        match self {
            OutputVoltage::V1000 => 0x00,
            OutputVoltage::V1100 => 0x01,
            OutputVoltage::V1200 => 0x02,
            OutputVoltage::V1300 => 0x03,
            OutputVoltage::V1350 => 0x04,
            OutputVoltage::V1400 => 0x05,
            OutputVoltage::V1500 => 06,
            OutputVoltage::V1600 => 0x07,
            OutputVoltage::V1700 => 0x08,
            OutputVoltage::V1800 => 0x09,
        }
    }
}

/// SMPS switching frequency
#[derive(Clone, Copy, Debug, PartialEq, Eq, Structural)]
pub enum SwitchingFrequency {
    /// 1.5 MHz
    Freq1_5MHz,
    /// 2.2 MHz
    Freq2_2MHz,
    /// 4 MHz
    Freq4MHz,
    /// 8 MHz
    Freq8MHz,
}

impl SwitchingFrequency {
    /// The register encoding of this value.
    pub open spec fn value(self) -> u32 {
        match self {
            SwitchingFrequency::Freq1_5MHz => 0b00u32,
            SwitchingFrequency::Freq2_2MHz => 0b01u32,
            SwitchingFrequency::Freq4MHz => 0b10u32,
            SwitchingFrequency::Freq8MHz => 0b11u32,
        }
    }

    /// The register encoding of this value.
    pub fn bits(self) -> (r: u32)
        ensures
            r == self.value(),
    {
        match self {
            SwitchingFrequency::Freq1_5MHz => 0b00,
            SwitchingFrequency::Freq2_2MHz => 0b01,
            SwitchingFrequency::Freq4MHz => 0b10,
            SwitchingFrequency::Freq8MHz => 0b11,
        }
    }
}

/// SMPS mode
#[derive(Clone, Copy, Debug, PartialEq, Eq, Structural)]
pub enum SmpsMode {
    /// Disabled
    Disabled,
    /// Bypass mode (LDO)
    Bypass,
    /// Low Power mode
    LowPower,
    /// Normal mode (SMPS)
    Normal,
}

impl SmpsMode {
    /// The register encoding of this value.
    pub open spec fn value(self) -> u32 {
        match self {
            SmpsMode::Disabled => 0b00u32,
            SmpsMode::Bypass => 0b01u32,
            SmpsMode::LowPower => 0b10u32,
            SmpsMode::Normal => 0b11u32,
        }
    }

    /// The register encoding of this value.
    pub fn bits(self) -> (r: u32)
        ensures
            r == self.value(),
    {
        match self {
            SmpsMode::Disabled => 0b00,
            SmpsMode::Bypass => 0b01,
            SmpsMode::LowPower => 0b10,
            SmpsMode::Normal => 0b11,
        }
    }
}

/// SMPS instance
pub struct Smps;

impl Smps {
    /// Create SMPS instance
    pub fn new() -> (r: Self) {
        Smps
    }

    /// CR value written by `init`: everything cleared.
    pub fn init(&self) -> (r: u32)
        ensures
            r == 0,
    {
        0
    }

    /// CFGR with the output voltage (VOUT, bits 16-19) set.
    pub fn set_voltage(&self, voltage: OutputVoltage, cfgr: u32) -> (r: u32)
        ensures
            r == regs::with_field(cfgr, 16, 4, voltage.value()),
            regs::field(r, 16, 4) == voltage.value(),
    {
        proof {
            regs::lemma_with_field(cfgr, 16, 4, voltage.value());
        }
        set_field(cfgr, 16, 4, voltage.bits())
    }

    /// CFGR with the switching frequency (FREQ, bits 8-9) set.
    pub fn set_frequency(&self, freq: SwitchingFrequency, cfgr: u32) -> (r: u32)
        ensures
            r == regs::with_field(cfgr, 8, 2, freq.value()),
            regs::field(r, 8, 2) == freq.value(),
    {
        proof {
            regs::lemma_with_field(cfgr, 8, 2, freq.value());
        }
        set_field(cfgr, 8, 2, freq.bits())
    }

    /// The two CR writes of `set_mode`: the mode (bits 8-9) set, then the
    /// converter enabled (EN, bit 0) unless the mode is `Disabled`, which
    /// clears it.
    pub fn set_mode(&self, mode: SmpsMode, cr: u32) -> (r: (u32, u32))
        ensures
            r.0 == regs::with_field(cr, 8, 2, mode.value()),
            r.1 == regs::with_bit(r.0, 0, mode != SmpsMode::Disabled),
    {
        let a = set_field(cr, 8, 2, mode.bits());
        if mode != SmpsMode::Disabled {
            (a, set_bit(a, 0))
        } else {
            (a, clear_bit(a, 0))
        }
    }

    /// CR with the converter enabled (EN, bit 0).
    pub fn enable(&self, cr: u32) -> (r: u32)
        ensures
            r == regs::with_bit(cr, 0, true),
    {
        set_bit(cr, 0)
    }

    /// CR with the converter disabled (EN, bit 0).
    pub fn disable(&self, cr: u32) -> (r: u32)
        ensures
            r == regs::with_bit(cr, 0, false),
    {
        clear_bit(cr, 0)
    }

    /// Whether the output is ready (PWR_RDY, bit 8 of SR).
    pub fn is_ready(&self, sr: u32) -> (r: bool)
        ensures
            r == regs::bit(sr, 8),
    {
        test_bit(sr, 8)
    }

    /// IER with the interrupts of `interrupt` enabled as well.
    pub fn enable_interrupt(&self, interrupt: u32, ier: u32) -> (r: u32)
        ensures
            r == ier | interrupt,
    {
        ier | interrupt
    }

}

/// The writes of `init_smps_default`, from CFGR as read first: CR
/// cleared, CFGR with 1.3 V out, CFGR with 2.2 MHz switching as well, then
/// the two writes of `set_mode` for normal mode on the cleared CR.
pub fn init_smps_default(cfgr: u32) -> (r: Vec<RegisterWrite>)
    ensures
        ({
            let v = regs::with_field(cfgr, 16, 4, OutputVoltage::V1300.value());
            let c = regs::with_field(0, 8, 2, SmpsMode::Normal.value());
            r@ == seq![
                RegisterWrite { offset: reg::CR, value: 0 },
                RegisterWrite { offset: reg::CFGR, value: v },
                RegisterWrite { offset: reg::CFGR, value: regs::with_field(v, 8, 2, SwitchingFrequency::Freq2_2MHz.value()) },
                RegisterWrite { offset: reg::CR, value: c },
                RegisterWrite { offset: reg::CR, value: regs::with_bit(c, 0, true) },
            ]
        }),
{
    let smps = Smps::new();
    let mut r: Vec<RegisterWrite> = Vec::new();
    let cr = smps.init();
    r.push(RegisterWrite { offset: reg::CR, value: cr });
    let v = smps.set_voltage(OutputVoltage::V1300, cfgr);
    r.push(RegisterWrite { offset: reg::CFGR, value: v });
    r.push(RegisterWrite { offset: reg::CFGR, value: smps.set_frequency(SwitchingFrequency::Freq2_2MHz, v) });
    let m = smps.set_mode(SmpsMode::Normal, cr);
    r.push(RegisterWrite { offset: reg::CR, value: m.0 });
    r.push(RegisterWrite { offset: reg::CR, value: m.1 });
    r
}

} // verus!
