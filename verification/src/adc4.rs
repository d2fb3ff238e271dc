//! ADC4 - Analog-to-Digital Converter 4
//!
//! ## Features
//! Resolution: 12-bit
//!
//! Operating Modes:
//! - Single channel mode
//! - Scan mode
//! - Discontinuous mode
//!
//! Other features:
//! - Analog watchdog
//! - DMA transfers
//!
//! ## Reference
//! - RM0456 Reference Manual, Chapter 34: Analog-to-digital converter (ADC4)
//! - RM0456 Section 34.1: ADC4 introduction
//! - RM0456 Section 34.2: ADC4 main features
//! - RM0456 Section 34.3: ADC4 functional description
//! - RM0456 Section 34.4: ADC4 registers
use vstd::prelude::*;
use crate::regs::{self, clear_bit, flag_bits, set_bit, set_field, test_bit};
pub mod reg;
pub mod cr_bits;
pub mod cfgr_bits;
pub mod isr_bits;

verus! {

broadcast use regs::lemma_low_mask_value;

/// ADC4 base address (non-secure)
pub const ADC4_BASE: usize = 0x4202_8C00;

/// ADC4 Resolution
#[derive(Clone, Copy, Debug, PartialEq, Eq, Structural)]
pub enum Resolution {
    /// 12-bit resolution (default)
    Bits12,
    /// 10-bit resolution
    Bits10,
    /// 8-bit resolution
    Bits8,
    /// 6-bit resolution
    Bits6,
}

impl Resolution {
    /// The register encoding of this value.
    pub open spec fn value(self) -> u32 {
        match self {
            Resolution::Bits12 => 0b00u32,
            Resolution::Bits10 => 0b01u32,
            Resolution::Bits8 => 0b10u32,
            Resolution::Bits6 => 0b11u32,
        }
    }

    /// The register encoding of this value.
    pub fn bits(self) -> (r: u32)
        ensures
            r == self.value(),
    {
        match self {
            Resolution::Bits12 => 0b00,
            Resolution::Bits10 => 0b01,
            Resolution::Bits8 => 0b10,
            Resolution::Bits6 => 0b11,
        }
    }
}

/// ADC4 Sample Time Cycles
#[derive(Clone, Copy, Debug, PartialEq, Eq, Structural)]
pub enum SampleTime {
    /// 2.5 cycles
    Cycles2_5,
    /// 6.5 cycles
    Cycles6_5,
    /// 12.5 cycles
    Cycles12_5,
    /// 24.5 cycles
    Cycles24_5,
    /// 47.5 cycles
    Cycles47_5,
    /// 92.5 cycles
    Cycles92_5,
    /// 247.5 cycles
    Cycles247_5,
    /// 640.5 cycles
    Cycles640_5,
}

impl SampleTime {
    /// The register encoding of this value.
    pub open spec fn value(self) -> u32 {
        match self {
            SampleTime::Cycles2_5 => 0b000u32,
            SampleTime::Cycles6_5 => 0b001u32,
            SampleTime::Cycles12_5 => 0b010u32,
            SampleTime::Cycles24_5 => 0b011u32,
            SampleTime::Cycles47_5 => 0b100u32,
            SampleTime::Cycles92_5 => 0b101u32,
            SampleTime::Cycles247_5 => 0b110u32,
            SampleTime::Cycles640_5 => 0b111u32,
        }
    }

    /// The register encoding of this value.
    pub fn bits(self) -> (r: u32)
        ensures
            r == self.value(),
    {
        match self {
            SampleTime::Cycles2_5 => 0b000,
            SampleTime::Cycles6_5 => 0b001,
            SampleTime::Cycles12_5 => 0b010,
            SampleTime::Cycles24_5 => 0b011,
            SampleTime::Cycles47_5 => 0b100,
            SampleTime::Cycles92_5 => 0b101,
            SampleTime::Cycles247_5 => 0b110,
            SampleTime::Cycles640_5 => 0b111,
        }
    }
}

/// ADC4 Channel
#[derive(Clone, Copy, Debug, PartialEq, Eq, Structural)]
pub enum Channel {
    /// ADC4_IN0 - PB14
    Channel0,
    /// ADC4_IN1 - PB15
    Channel1,
    /// ADC4_IN2 - PC0
    Channel2,
    /// ADC4_IN3 - PC1
    Channel3,
    /// ADC4_IN4 - PC2
    Channel4,
    /// ADC4_IN5 - PC3
    Channel5,
    /// ADC4_IN6 - PC4
    Channel6,
    /// ADC4_IN7 - PC5
    Channel7,
    /// Internal temperature sensor
    TemperatureSensor,
    /// Internal voltage reference (VREFINT)
    Vrefint,
}

impl Channel {
    /// The register encoding of this value.
    pub open spec fn value(self) -> u32 {
        match self {
            Channel::Channel0 => 0u32,
            Channel::Channel1 => 1u32,
            Channel::Channel2 => 2u32,
            Channel::Channel3 => 3u32,
            Channel::Channel4 => 4u32,
            Channel::Channel5 => 5u32,
            Channel::Channel6 => 6u32,
            Channel::Channel7 => 7u32,
            Channel::TemperatureSensor => 8u32,
            Channel::Vrefint => 9u32,
        }
    }

    /// The register encoding of this value.
    pub fn bits(self) -> (r: u32)
        ensures
            r == self.value(),
    {
        match self {
            Channel::Channel0 => 0,
            Channel::Channel1 => 1,
            Channel::Channel2 => 2,
            Channel::Channel3 => 3,
            Channel::Channel4 => 4,
            Channel::Channel5 => 5,
            Channel::Channel6 => 6,
            Channel::Channel7 => 7,
            Channel::TemperatureSensor => 8,
            Channel::Vrefint => 9,
        }
    }
}

/// ADC4 Configuration
#[derive(Clone, Copy, Debug)]
pub struct Config {
    /// ADC resolution
    pub resolution: Resolution,
    /// Continuous conversion mode
    pub continuous: bool,
    /// Scan mode
    pub scan_mode: bool,
    /// DMA enable
    pub dma_enable: bool,
    /// Overrun mode (false=overwrite, true=preserve)
    pub overrun_mode: bool,
}

impl Default for Config {
    fn default() -> (r: Self)
        ensures
            r == (Config { resolution: Resolution::Bits12, continuous: false, scan_mode: false, dma_enable: false, overrun_mode: false }),
    {
        Config { resolution: Resolution::Bits12, continuous: false, scan_mode: false, dma_enable: false, overrun_mode: false }
    }
}

/// ADC4 Instance
pub struct Adc4;

impl Adc4 {
    /// Create ADC4 instance
    pub fn new() -> (r: Self) {
        Adc4
    }

    /// CFGR value that `init` writes: resolution in bits 3-4, DMAEN (bit 0),
    /// SCAN (bit 5), OVRMOD (bit 12) and CONT (bit 13); every other bit clear.
    pub open spec fn cfgr_value(config: Config) -> u32 {
        (config.resolution.value() << 3) | regs::flag(config.dma_enable) | (regs::flag(config.scan_mode) << 5)
            | (regs::flag(config.overrun_mode) << 12) | (regs::flag(config.continuous) << 13)
    }

    /// CFGR value programmed by `init`. The regulator start, calibration and
    /// enable steps that `init` performs around this write are
    /// `enable_regulator`, `calibrate` and `enable`.
    pub fn init(&self, config: &Config) -> (r: u32)
        ensures
            r == Self::cfgr_value(*config),
            regs::field(r, 3, 2) == config.resolution.value(),
            regs::bit(r, 0) == config.dma_enable,
            regs::bit(r, 5) == config.scan_mode,
            regs::bit(r, 12) == config.overrun_mode,
            regs::bit(r, 13) == config.continuous,
            forall|i: u32|
                i < 32 && i != 0 && i != 3 && i != 4 && i != 5 && i != 12 && i != 13 ==> !regs::bit(r, i),
    {
        let res = config.resolution.bits();
        let d = flag_bits(config.dma_enable);
        let s = flag_bits(config.scan_mode);
        let o = flag_bits(config.overrun_mode);
        let c = flag_bits(config.continuous);
        let cfgr: u32 = (res << 3) | d | (s << 5) | (o << 12) | (c << 13);
        assert({
            &&& regs::field(cfgr, 3, 2) == res
            &&& regs::bit(cfgr, 0) == (d == 1)
            &&& regs::bit(cfgr, 5) == (s == 1)
            &&& regs::bit(cfgr, 12) == (o == 1)
            &&& regs::bit(cfgr, 13) == (c == 1)
            &&& forall|i: u32|
                i < 32 && i != 0 && i != 3 && i != 4 && i != 5 && i != 12 && i != 13 ==> !regs::bit(cfgr, i)
        }) by (bit_vector)
            requires
                res <= 3,
                d <= 1,
                s <= 1,
                o <= 1,
                c <= 1,
                cfgr == (res << 3) | d | (s << 5) | (o << 12) | (c << 13),
        ;
        cfgr
    }

    /// The ordered register steps of `init`: ADVREGEN set and the regulator
    /// given 1000 idle cycles to start; CFGR written from the configuration;
    /// ADCAL set and waited for to clear (the calibration); ADEN set, and
    /// finally ADRDY waited for.
    pub open spec fn init_steps(config: Config) -> Seq<regs::Step> {
        seq![
            regs::Step::SetField { addr: (ADC4_BASE + reg::CR) as usize, pos: 28, width: 1, value: 1 },
            regs::Step::Pause { cycles: 1000 },
            regs::Step::Write { addr: (ADC4_BASE + reg::CFGR) as usize, value: Self::cfgr_value(config) },
            regs::Step::SetField { addr: (ADC4_BASE + reg::CR) as usize, pos: 31, width: 1, value: 1 },
            regs::Step::WaitField { addr: (ADC4_BASE + reg::CR) as usize, pos: 31, width: 1, value: 0 },
            regs::Step::SetField { addr: (ADC4_BASE + reg::CR) as usize, pos: 0, width: 1, value: 1 },
            regs::Step::WaitField { addr: (ADC4_BASE + reg::ISR) as usize, pos: 0, width: 1, value: 1 },
        ]
    }

    /// The steps of `init`, in order (see `init_steps`); the CFGR value is
    /// that of `init`.
    pub fn init_sequence(&self, config: &Config) -> (r: Vec<regs::Step>)
        ensures
            r@ == Self::init_steps(*config),
            forall|i: int| 0 <= i < r@.len() ==> (#[trigger] r@[i]).well_formed(),
    {
        let cr = ADC4_BASE + reg::CR;
        let r = vec![
            regs::Step::SetField { addr: cr, pos: 28, width: 1, value: 1 },
            regs::Step::Pause { cycles: 1000 },
            regs::Step::Write { addr: ADC4_BASE + reg::CFGR, value: self.init(config) },
            regs::Step::SetField { addr: cr, pos: 31, width: 1, value: 1 },
            regs::Step::WaitField { addr: cr, pos: 31, width: 1, value: 0 },
            regs::Step::SetField { addr: cr, pos: 0, width: 1, value: 1 },
            regs::Step::WaitField { addr: ADC4_BASE + reg::ISR, pos: 0, width: 1, value: 1 },
        ];
        assert(r@ =~= Self::init_steps(*config));
        r
    }

    /// CR with the voltage regulator enabled (ADVREGEN, bit 28), the first step
    /// of `init`.
    pub fn enable_regulator(&self, cr: u32) -> (r: u32)
        ensures
            r == regs::with_bit(cr, 28, true),
    {
        set_bit(cr, 28)
    }

    /// CR with the calibration started (ADCAL, bit 31).
    pub fn calibrate(&self, cr: u32) -> (r: u32)
        ensures
            r == regs::with_bit(cr, 31, true),
    {
        set_bit(cr, 31)
    }

    /// Whether a calibration started by `calibrate` has finished: the hardware
    /// clears ADCAL when it is done.
    pub fn calibration_done(&self, cr: u32) -> (r: bool)
        ensures
            r == !regs::bit(cr, 31),
    {
        !test_bit(cr, 31)
    }

    /// Whether ISR reports the ADC ready (ADRDY, bit 0).
    pub fn is_ready(&self, isr: u32) -> (r: bool)
        ensures
            r == regs::bit(isr, 0),
    {
        test_bit(isr, 0)
    }

    /// SMPR1 with the 3-bit sample-time field of `channel` (at bit
    /// `3 * channel`) set to `sample_time`.
    pub fn set_sample_time(&self, channel: Channel, sample_time: SampleTime, smpr1: u32) -> (r: u32)
        ensures
            r == regs::with_field(smpr1, (channel.value() * 3) as u32, 3, sample_time.value()),
            regs::field(r, (channel.value() * 3) as u32, 3) == sample_time.value(),
    {
        let pos = channel.bits() * 3;
        proof {
            regs::lemma_with_field(smpr1, pos, 3, sample_time.value());
        }
        set_field(smpr1, pos, 3, sample_time.bits())
    }

    /// SQR1 for a one-conversion sequence of `channel`: SQ1 (bits 6-10) holds
    /// the channel and L (bits 0-3) is zero.
    pub fn configure_sequence(&self, channel: Channel, sqr1: u32) -> (r: u32)
        ensures
            r == regs::with_field(regs::with_field(sqr1, 6, 5, channel.value()), 0, 4, 0),
            regs::field(r, 6, 5) == channel.value(),
            regs::field(r, 0, 4) == 0,
            forall|j: u32| j < 32 && !(j < 4 || 6 <= j < 11) ==> regs::bit(r, j) == regs::bit(sqr1, j),
    {
        let v = set_field(sqr1, 6, 5, channel.bits());
        let r = set_field(v, 0, 4, 0);
        let ghost ch = channel.value();
        assert({
            &&& (r >> 6u32) & 31u32 == ch
            &&& (r >> 0u32) & 15u32 == 0
            &&& forall|j: u32| j < 32 && !(j < 4 || 6 <= j < 11) ==> regs::bit(r, j) == regs::bit(sqr1, j)
        }) by (bit_vector)
            requires
                ch <= 31,
                v == (sqr1 & !(31u32 << 6u32)) | (ch << 6u32),
                r == (v & !(15u32 << 0u32)) | (0u32 << 0u32),
        ;
        r
    }

    /// CR with a regular conversion started (ADSTART, bit 2).
    pub fn start_conversion(&self, cr: u32) -> (r: u32)
        ensures
            r == regs::with_bit(cr, 2, true),
    {
        set_bit(cr, 2)
    }

    /// Whether ISR reports the end of a conversion (EOC, bit 2).
    pub fn is_conversion_complete(&self, isr: u32) -> (r: bool)
        ensures
            r == regs::bit(isr, 2),
    {
        test_bit(isr, 2)
    }

    /// The conversion result held in DR, truncated to its low 16 bits.
    pub fn read(&self, dr: u32) -> (r: u16)
        ensures
            r == dr as u16,
    {
        dr as u16
    }

    /// CR with the ADC enabled (ADEN, bit 0).
    pub fn enable(&self, cr: u32) -> (r: u32)
        ensures
            r == regs::with_bit(cr, 0, true),
    {
        set_bit(cr, 0)
    }

    /// CR with the ADC disabled: ADEN (bit 0) cleared.
    pub fn disable(&self, cr: u32) -> (r: u32)
        ensures
            r == regs::with_bit(cr, 0, false),
    {
        clear_bit(cr, 0)
    }

}

/// CFGR1 value of `init_adc4_default`: `Adc4::init` with the default
/// configuration, 12-bit single conversions.
pub fn init_adc4_default() -> (r: u32)
    ensures
        r == Adc4::cfgr_value(Config { resolution: Resolution::Bits12, continuous: false, scan_mode: false, dma_enable: false, overrun_mode: false }),
{
    let adc = Adc4::new();
    let config = Config::default();
    adc.init(&config)
}

} // verus!
