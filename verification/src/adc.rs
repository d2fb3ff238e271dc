//! ADC - Analog-to-Digital Converter
//!
//! # Overview
//! STM32U5 series features up to 3 ADCs: ADC1, ADC2 (synchronous operation),
//! and ADC4 (low-power).
//!
//! # Features
//! Reference: RM0456 Chapter 33 (ADC12) and Chapter 34 (ADC4)
//!
//! ## ADC Modules
//! - **ADC1/ADC2**: Main ADCs supporting 12-bit resolution, up to 4 Msps (synchronous mode)
//! - **ADC4**: Low-power ADC supporting 12-bit resolution
//!
//! ## Conversion Modes
//! Reference: RM0456 Section 33.3
//! - Single conversion mode
//! - Continuous conversion mode
//! - Scan mode (multiple channels)
//! - Discontinuous mode
//! - Injected conversion
//!
//! ## Trigger Sources
//! Reference: RM0456 Section 33.3.14
//! - Software trigger
//! - External triggers (Timer, EXTI)
//!
//! ## Features
//! - Configurable sample time
//! - Analog watchdog (AWD)
//! - Internal reference voltage channel
//! - Temperature sensor channel
//! - VBAT channel
//!
//! # ADC Channels
//! | Channel | Pin | Description |
//! |---------|-----|-------------|
//! | 0 | PA0 | ADC1_IN0 |
//! | 1 | PA1 | ADC1_IN1 |
//! | ... | ... | ... |
//! | 16 | - | Internal temperature sensor |
//! | 17 | - | Internal voltage reference (VREFINT) |
//! | 18 | - | VBAT channel |
//!
//! # Reference
//! - RM0456 Chapter 33: Analog-to-digital converter (ADC12)
//! - RM0456 Section 33.1: ADC introduction
//! - RM0456 Section 33.2: ADC main features
//! - RM0456 Section 33.3: ADC functional description
//! - RM0456 Section 33.4: ADC registers
//! - RM0456 Chapter 34: Analog-to-digital converter (ADC4)
use vstd::prelude::*;
use crate::regs::{self, flag_bits, set_bit, set_field, test_bit};
use crate::math::{self, div_toward_zero};
pub mod reg;
pub mod common_reg;
pub mod cr_bits;
pub mod cfgr_bits;
pub mod ccr_bits;
pub mod isr_bits;

verus! {

broadcast use regs::lemma_low_mask_value;

/// ADC1 base address (non-secure)
pub const ADC1_BASE: usize = 0x4202_8000;
/// ADC2 base address (non-secure)
pub const ADC2_BASE: usize = 0x4202_8100;
/// ADC4 base address (non-secure)
pub const ADC4_BASE: usize = 0x4202_8C00;
/// ADC common registers base address
pub const ADC1_COMMON_BASE: usize = 0x4202_8300;

/// ADC Resolution
#[derive(Clone, Copy, Debug, PartialEq, Eq, Structural)]
pub enum Resolution {
    /// 12-bit resolution (default)
    Bits12,
    /// 10-bit resolution
    Bits10,
    /// 8-bit resolution
    Bits8,
    /// 6-bit resolution
    Bits6,
}

impl Resolution {
    /// The register encoding of this value.
    pub open spec fn value(self) -> u32 {
        match self {
            Resolution::Bits12 => 0b00u32,
            Resolution::Bits10 => 0b01u32,
            Resolution::Bits8 => 0b10u32,
            Resolution::Bits6 => 0b11u32,
        }
    }

    /// The register encoding of this value.
    pub fn bits(self) -> (r: u32)
        ensures
            r == self.value(),
    {
        match self {
            Resolution::Bits12 => 0b00,
            Resolution::Bits10 => 0b01,
            Resolution::Bits8 => 0b10,
            Resolution::Bits6 => 0b11,
        }
    }
}

/// ADC Sample Time Cycles
#[derive(Clone, Copy, Debug, PartialEq, Eq, Structural)]
pub enum SampleTime {
    /// 2.5 cycles
    Cycles2_5,
    /// 6.5 cycles
    Cycles6_5,
    /// 12.5 cycles
    Cycles12_5,
    /// 24.5 cycles
    Cycles24_5,
    /// 47.5 cycles
    Cycles47_5,
    /// 92.5 cycles
    Cycles92_5,
    /// 247.5 cycles
    Cycles247_5,
    /// 640.5 cycles
    Cycles640_5,
}

impl SampleTime {
    /// The register encoding of this value.
    pub open spec fn value(self) -> u32 {
        match self {
            SampleTime::Cycles2_5 => 0b000u32,
            SampleTime::Cycles6_5 => 0b001u32,
            SampleTime::Cycles12_5 => 0b010u32,
            SampleTime::Cycles24_5 => 0b011u32,
            SampleTime::Cycles47_5 => 0b100u32,
            SampleTime::Cycles92_5 => 0b101u32,
            SampleTime::Cycles247_5 => 0b110u32,
            SampleTime::Cycles640_5 => 0b111u32,
        }
    }

    /// The register encoding of this value.
    pub fn bits(self) -> (r: u32)
        ensures
            r == self.value(),
    {
        match self {
            SampleTime::Cycles2_5 => 0b000,
            SampleTime::Cycles6_5 => 0b001,
            SampleTime::Cycles12_5 => 0b010,
            SampleTime::Cycles24_5 => 0b011,
            SampleTime::Cycles47_5 => 0b100,
            SampleTime::Cycles92_5 => 0b101,
            SampleTime::Cycles247_5 => 0b110,
            SampleTime::Cycles640_5 => 0b111,
        }
    }
}

/// ADC Clock Prescaler
#[derive(Clone, Copy, Debug, PartialEq, Eq, Structural)]
pub enum ClockPrescaler {
    /// Synchronous clock mode, ADC clock = AHB/1
    Div1,
    /// Synchronous clock mode, ADC clock = AHB/2
    Div2,
    /// Synchronous clock mode, ADC clock = AHB/4
    Div4,
    /// Synchronous clock mode, ADC clock = AHB/6
    Div6,
    /// Synchronous clock mode, ADC clock = AHB/8
    Div8,
    /// Synchronous clock mode, ADC clock = AHB/10
    Div10,
    /// Synchronous clock mode, ADC clock = AHB/12
    Div12,
    /// Synchronous clock mode, ADC clock = AHB/16
    Div16,
    /// Synchronous clock mode, ADC clock = AHB/32
    Div32,
    /// Synchronous clock mode, ADC clock = AHB/64
    Div64,
    /// Synchronous clock mode, ADC clock = AHB/128
    Div128,
    /// Synchronous clock mode, ADC clock = AHB/256
    Div256,
    /// Asynchronous clock mode, ADC clock = PLL"P"/1
    AsyncDiv1,
    /// Asynchronous clock mode, ADC clock = PLL"P"/2
    AsyncDiv2,
    /// Asynchronous clock mode, ADC clock = PLL"P"/4
    AsyncDiv4,
    /// Asynchronous clock mode, ADC clock = PLL"P"/6
    AsyncDiv6,
    /// Asynchronous clock mode, ADC clock = PLL"P"/8
    AsyncDiv8,
    /// Asynchronous clock mode, ADC clock = PLL"P"/10
    AsyncDiv10,
    /// Asynchronous clock mode, ADC clock = PLL"P"/12
    AsyncDiv12,
    /// Asynchronous clock mode, ADC clock = PLL"P"/16
    AsyncDiv16,
    /// Asynchronous clock mode, ADC clock = PLL"P"/32
    AsyncDiv32,
    /// Asynchronous clock mode, ADC clock = PLL"P"/64
    AsyncDiv64,
    /// Asynchronous clock mode, ADC clock = PLL"P"/128
    AsyncDiv128,
    /// Asynchronous clock mode, ADC clock = PLL"P"/256
    AsyncDiv256,
}

impl ClockPrescaler {
    /// The register encoding of this value.
    pub open spec fn value(self) -> u32 {
        match self {
            ClockPrescaler::Div1 => 0b00000u32,
            ClockPrescaler::Div2 => 0b00001u32,
            ClockPrescaler::Div4 => 0b00010u32,
            ClockPrescaler::Div6 => 0b00011u32,
            ClockPrescaler::Div8 => 0b00100u32,
            ClockPrescaler::Div10 => 0b00101u32,
            ClockPrescaler::Div12 => 0b00110u32,
            ClockPrescaler::Div16 => 0b00111u32,
            ClockPrescaler::Div32 => 0b01000u32,
            ClockPrescaler::Div64 => 0b01001u32,
            ClockPrescaler::Div128 => 0b01010u32,
            ClockPrescaler::Div256 => 0b01011u32,
            ClockPrescaler::AsyncDiv1 => 0b10000u32,
            ClockPrescaler::AsyncDiv2 => 0b10001u32,
            ClockPrescaler::AsyncDiv4 => 0b10010u32,
            ClockPrescaler::AsyncDiv6 => 0b10011u32,
            ClockPrescaler::AsyncDiv8 => 0b10100u32,
            ClockPrescaler::AsyncDiv10 => 0b10101u32,
            ClockPrescaler::AsyncDiv12 => 0b10110u32,
            ClockPrescaler::AsyncDiv16 => 0b10111u32,
            ClockPrescaler::AsyncDiv32 => 0b11000u32,
            ClockPrescaler::AsyncDiv64 => 0b11001u32,
            ClockPrescaler::AsyncDiv128 => 0b11010u32,
            ClockPrescaler::AsyncDiv256 => 0b11011u32,
        }
    }

    /// The register encoding of this value.
    pub fn bits(self) -> (r: u32)
        ensures
            r == self.value(),
    {
        match self {
            ClockPrescaler::Div1 => 0b00000,
            ClockPrescaler::Div2 => 0b00001,
            ClockPrescaler::Div4 => 0b00010,
            ClockPrescaler::Div6 => 0b00011,
            ClockPrescaler::Div8 => 0b00100,
            ClockPrescaler::Div10 => 0b00101,
            ClockPrescaler::Div12 => 0b00110,
            ClockPrescaler::Div16 => 0b00111,
            ClockPrescaler::Div32 => 0b01000,
            ClockPrescaler::Div64 => 0b01001,
            ClockPrescaler::Div128 => 0b01010,
            ClockPrescaler::Div256 => 0b01011,
            ClockPrescaler::AsyncDiv1 => 0b10000,
            ClockPrescaler::AsyncDiv2 => 0b10001,
            ClockPrescaler::AsyncDiv4 => 0b10010,
            ClockPrescaler::AsyncDiv6 => 0b10011,
            ClockPrescaler::AsyncDiv8 => 0b10100,
            ClockPrescaler::AsyncDiv10 => 0b10101,
            ClockPrescaler::AsyncDiv12 => 0b10110,
            ClockPrescaler::AsyncDiv16 => 0b10111,
            ClockPrescaler::AsyncDiv32 => 0b11000,
            ClockPrescaler::AsyncDiv64 => 0b11001,
            ClockPrescaler::AsyncDiv128 => 0b11010,
            ClockPrescaler::AsyncDiv256 => 0b11011,
        }
    }
}

/// ADC Channel
#[derive(Clone, Copy, Debug, PartialEq, Eq, Structural)]
pub enum Channel {
    /// ADC1_IN0 - PA0
    Channel0,
    /// ADC1_IN1 - PA1
    Channel1,
    /// ADC1_IN2 - PA2
    Channel2,
    /// ADC1_IN3 - PA3
    Channel3,
    /// ADC1_IN4 - PA4
    Channel4,
    /// ADC1_IN5 - PA5
    Channel5,
    /// ADC1_IN6 - PA6
    Channel6,
    /// ADC1_IN7 - PA7
    Channel7,
    /// ADC1_IN8 - PC0
    Channel8,
    /// ADC1_IN9 - PC1
    Channel9,
    /// ADC1_IN10 - PC2
    Channel10,
    /// ADC1_IN11 - PC3
    Channel11,
    /// ADC1_IN12 - PB0
    Channel12,
    /// ADC1_IN13 - PB1
    Channel13,
    /// ADC1_IN14 - PB2
    Channel14,
    /// ADC1_IN15 - PB4 (or PA15)
    Channel15,
    /// Internal temperature sensor
    TemperatureSensor,
    /// Internal voltage reference (VREFINT)
    Vrefint,
    /// VBAT channel
    Vbat,
}

impl Channel {
    /// The register encoding of this value.
    pub open spec fn value(self) -> u32 {
        match self {
            Channel::Channel0 => 0u32,
            Channel::Channel1 => 1u32,
            Channel::Channel2 => 2u32,
            Channel::Channel3 => 3u32,
            Channel::Channel4 => 4u32,
            Channel::Channel5 => 5u32,
            Channel::Channel6 => 6u32,
            Channel::Channel7 => 7u32,
            Channel::Channel8 => 8u32,
            Channel::Channel9 => 9u32,
            Channel::Channel10 => 10u32,
            Channel::Channel11 => 11u32,
            Channel::Channel12 => 12u32,
            Channel::Channel13 => 13u32,
            Channel::Channel14 => 14u32,
            Channel::Channel15 => 15u32,
            Channel::TemperatureSensor => 16u32,
            Channel::Vrefint => 17u32,
            Channel::Vbat => 18u32,
        }
    }

    /// The register encoding of this value.
    pub fn bits(self) -> (r: u32)
        ensures
            r == self.value(),
    {
        match self {
            Channel::Channel0 => 0,
            Channel::Channel1 => 1,
            Channel::Channel2 => 2,
            Channel::Channel3 => 3,
            Channel::Channel4 => 4,
            Channel::Channel5 => 5,
            Channel::Channel6 => 6,
            Channel::Channel7 => 7,
            Channel::Channel8 => 8,
            Channel::Channel9 => 9,
            Channel::Channel10 => 10,
            Channel::Channel11 => 11,
            Channel::Channel12 => 12,
            Channel::Channel13 => 13,
            Channel::Channel14 => 14,
            Channel::Channel15 => 15,
            Channel::TemperatureSensor => 16,
            Channel::Vrefint => 17,
            Channel::Vbat => 18,
        }
    }
}

/// ADC Configuration
#[derive(Clone, Copy, Debug)]
pub struct Config {
    /// ADC resolution
    pub resolution: Resolution,
    /// Clock prescaler
    pub clock_prescaler: ClockPrescaler,
    /// Continuous conversion mode
    pub continuous: bool,
    /// Scan mode
    pub scan_mode: bool,
    /// DMA enable
    pub dma_enable: bool,
    /// Overrun mode (false=overwrite, true=preserve)
    pub overrun_mode: bool,
}

impl Default for Config {
    fn default() -> (r: Self)
        ensures
            r == (Config { resolution: Resolution::Bits12, clock_prescaler: ClockPrescaler::Div4, continuous: false, scan_mode: false, dma_enable: false, overrun_mode: false }),
    {
        Config { resolution: Resolution::Bits12, clock_prescaler: ClockPrescaler::Div4, continuous: false, scan_mode: false, dma_enable: false, overrun_mode: false }
    }
}

/// Register values programmed by `Adc::init`.
#[derive(Clone, Copy, Debug)]
pub struct InitRegisters {
    /// Common control register (CCR).
    pub ccr: u32,
    /// Configuration register (CFGR).
    pub cfgr: u32,
}

/// Temperature in millidegrees Celsius for a raw reading `raw` of the
/// temperature sensor, given the calibration readings at 30 °C and 130 °C.
pub open spec fn temperature_mdeg(raw: int, ts_cal1: int, ts_cal2: int) -> int {
    math::trunc_div(100 * (raw - ts_cal1) * 1000, ts_cal2 - ts_cal1) + 30000
}

/// ADC Instance
pub struct Adc {
    base: usize,
}

impl Adc {
    /// An instance is ADC1, ADC2 or ADC4.
    #[verifier::type_invariant]
    spec fn inv(self) -> bool {
        self.base == ADC1_BASE || self.base == ADC2_BASE || self.base == ADC4_BASE
    }

    /// Base address of this instance's register block.
    pub closed spec fn base_addr(&self) -> usize {
        self.base
    }

    /// Base address of this instance's register block.
    pub fn base(&self) -> (r: usize)
        ensures
            r == self.base_addr(),
    {
        self.base
    }

    /// Create ADC1 instance
    pub fn adc1() -> (r: Self)
        ensures
            r.base_addr() == ADC1_BASE,
    {
        Self { base: ADC1_BASE }
    }

    /// Create ADC2 instance
    pub fn adc2() -> (r: Self)
        ensures
            r.base_addr() == ADC2_BASE,
    {
        Self { base: ADC2_BASE }
    }

    /// Create ADC4 instance
    pub fn adc4() -> (r: Self)
        ensures
            r.base_addr() == ADC4_BASE,
    {
        Self { base: ADC4_BASE }
    }

    /// CFGR value that `init` writes: resolution in bits 3-4, DMAEN (bit 0),
    /// SCAN (bit 5), OVRMOD (bit 12) and CONT (bit 13); every other bit clear.
    pub open spec fn cfgr_value(config: Config) -> u32 {
        (config.resolution.value() << 3) | regs::flag(config.dma_enable) | (regs::flag(config.scan_mode) << 5)
            | (regs::flag(config.overrun_mode) << 12) | (regs::flag(config.continuous) << 13)
    }

    /// Register values programmed by `init`: the common CCR with the clock
    /// prescaler placed in PRESC (bits 18-21) and the CFGR built from the
    /// configuration. The regulator start, calibration and enable steps that
    /// `init` performs around these writes are `enable_regulator`,
    /// `calibrate` and `enable`.
    pub fn init(&self, config: &Config, ccr: u32) -> (r: InitRegisters)
        ensures
            r.ccr == regs::with_field(ccr, 18, 4, config.clock_prescaler.value()),
            r.cfgr == Self::cfgr_value(*config),
            regs::field(r.cfgr, 3, 2) == config.resolution.value(),
            regs::bit(r.cfgr, 0) == config.dma_enable,
            regs::bit(r.cfgr, 5) == config.scan_mode,
            regs::bit(r.cfgr, 12) == config.overrun_mode,
            regs::bit(r.cfgr, 13) == config.continuous,
            forall|i: u32|
                i < 32 && i != 0 && i != 3 && i != 4 && i != 5 && i != 12 && i != 13 ==> !regs::bit(
                    r.cfgr,
                    i,
                ),
    {
        let new_ccr = set_field(ccr, 18, 4, config.clock_prescaler.bits());
        let res = config.resolution.bits();
        let d = flag_bits(config.dma_enable);
        let s = flag_bits(config.scan_mode);
        let o = flag_bits(config.overrun_mode);
        let c = flag_bits(config.continuous);
        let cfgr: u32 = (res << 3) | d | (s << 5) | (o << 12) | (c << 13);
        assert({
            &&& regs::field(cfgr, 3, 2) == res
            &&& regs::bit(cfgr, 0) == (d == 1)
            &&& regs::bit(cfgr, 5) == (s == 1)
            &&& regs::bit(cfgr, 12) == (o == 1)
            &&& regs::bit(cfgr, 13) == (c == 1)
            &&& forall|i: u32|
                i < 32 && i != 0 && i != 3 && i != 4 && i != 5 && i != 12 && i != 13 ==> !regs::bit(
                    cfgr,
                    i,
                )
        }) by (bit_vector)
            requires
                res <= 3,
                d <= 1,
                s <= 1,
                o <= 1,
                c <= 1,
                cfgr == (res << 3) | d | (s << 5) | (o << 12) | (c << 13),
        ;
        InitRegisters { ccr: new_ccr, cfgr }
    }

    /// The ordered register steps of `init` on an ADC at `base`: ADVREGEN
    /// set and the regulator given 1000 idle cycles to start; the common
    /// clock prescaler placed in PRESC; CFGR written from the configuration;
    /// ADCAL set and waited for to clear (the calibration); ADEN set, and
    /// finally ADRDY waited for.
    pub open spec fn init_steps(base: usize, config: Config) -> Seq<regs::Step> {
        seq![
            regs::Step::SetField { addr: (base + reg::CR) as usize, pos: 28, width: 1, value: 1 },
            regs::Step::Pause { cycles: 1000 },
            regs::Step::SetField { addr: (ADC1_COMMON_BASE + common_reg::CCR) as usize, pos: 18, width: 4, value: config.clock_prescaler.value() },
            regs::Step::Write { addr: (base + reg::CFGR) as usize, value: Self::cfgr_value(config) },
            regs::Step::SetField { addr: (base + reg::CR) as usize, pos: 31, width: 1, value: 1 },
            regs::Step::WaitField { addr: (base + reg::CR) as usize, pos: 31, width: 1, value: 0 },
            regs::Step::SetField { addr: (base + reg::CR) as usize, pos: 0, width: 1, value: 1 },
            regs::Step::WaitField { addr: (base + reg::ISR) as usize, pos: 0, width: 1, value: 1 },
        ]
    }

    /// The steps of `init` on this ADC, in order (see `init_steps`); the
    /// values they program are those of `init`.
    pub fn init_sequence(&self, config: &Config) -> (r: Vec<regs::Step>)
        ensures
            r@ == Self::init_steps(self.base_addr(), *config),
            forall|i: int| 0 <= i < r@.len() ==> (#[trigger] r@[i]).well_formed(),
    {
        proof {
            use_type_invariant(self);
        }
        let cr = self.base + reg::CR;
        let values = self.init(config, 0);
        let presc = config.clock_prescaler.bits();
        let r = vec![
            regs::Step::SetField { addr: cr, pos: 28, width: 1, value: 1 },
            regs::Step::Pause { cycles: 1000 },
            regs::Step::SetField { addr: ADC1_COMMON_BASE + common_reg::CCR, pos: 18, width: 4, value: presc },
            regs::Step::Write { addr: self.base + reg::CFGR, value: values.cfgr },
            regs::Step::SetField { addr: cr, pos: 31, width: 1, value: 1 },
            regs::Step::WaitField { addr: cr, pos: 31, width: 1, value: 0 },
            regs::Step::SetField { addr: cr, pos: 0, width: 1, value: 1 },
            regs::Step::WaitField { addr: self.base + reg::ISR, pos: 0, width: 1, value: 1 },
        ];
        assert(r@ =~= Self::init_steps(self.base_addr(), *config));
        r
    }

    /// CR with the voltage regulator enabled (ADVREGEN, bit 28), the first
    /// step of `init`.
    pub fn enable_regulator(&self, cr: u32) -> (r: u32)
        ensures
            r == regs::with_bit(cr, 28, true),
    {
        set_bit(cr, 28)
    }

    /// CR with the calibration started (ADCAL, bit 31).
    pub fn calibrate(&self, cr: u32) -> (r: u32)
        ensures
            r == regs::with_bit(cr, 31, true),
    {
        set_bit(cr, 31)
    }

    /// Whether a calibration started by `calibrate` has finished: the
    /// hardware clears ADCAL when it is done.
    pub fn calibration_done(&self, cr: u32) -> (r: bool)
        ensures
            r == !regs::bit(cr, 31),
    {
        !test_bit(cr, 31)
    }

    /// CR with the ADC enabled (ADEN, bit 0), the last step of `init`.
    pub fn enable(&self, cr: u32) -> (r: u32)
        ensures
            r == regs::with_bit(cr, 0, true),
    {
        set_bit(cr, 0)
    }

    /// Whether ISR reports the ADC ready (ADRDY, bit 0).
    pub fn is_ready(&self, isr: u32) -> (r: bool)
        ensures
            r == regs::bit(isr, 0),
    {
        test_bit(isr, 0)
    }

    /// Offset of the sample-time register that holds `channel`: SMPR1 for
    /// channels 0-9, SMPR2 above.
    pub fn sample_time_register(&self, channel: Channel) -> (r: usize)
        ensures
            r == if channel.value() < 10 { reg::SMPR1 } else { reg::SMPR2 },
    {
        if channel.bits() < 10 {
            reg::SMPR1
        } else {
            reg::SMPR2
        }
    }

    /// Sample-time register `smpr` (the one `sample_time_register` names)
    /// with the 3-bit field of `channel` set to `sample_time`: the field
    /// starts at bit `3 * channel` in SMPR1 and `3 * (channel - 10)` in SMPR2.
    pub fn set_sample_time(&self, channel: Channel, sample_time: SampleTime, smpr: u32) -> (r:
        u32)
        ensures
            r == regs::with_field(smpr, Self::sample_time_pos(channel), 3, sample_time.value()),
            regs::field(r, Self::sample_time_pos(channel), 3) == sample_time.value(),
            forall|j: u32|
                j < 32 && !(Self::sample_time_pos(channel) <= j < Self::sample_time_pos(channel) + 3)
                    ==> regs::bit(r, j) == regs::bit(smpr, j),
    {
        let ch = channel.bits();
        let pos = if ch < 10 {
            ch * 3
        } else {
            (ch - 10) * 3
        };
        proof {
            regs::lemma_with_field(smpr, pos, 3, sample_time.value());
        }
        set_field(smpr, pos, 3, sample_time.bits())
    }

    /// First bit of the sample-time field of `channel` in its register.
    pub open spec fn sample_time_pos(channel: Channel) -> u32 {
        if channel.value() < 10 {
            (channel.value() * 3) as u32
        } else {
            ((channel.value() - 10) * 3) as u32
        }
    }

    /// SQR1 for a one-conversion sequence of `channel`: SQ1 (bits 6-10) holds
    /// the channel and L (bits 0-3) is zero.
    pub fn configure_sequence(&self, channel: Channel, sqr1: u32) -> (r: u32)
        ensures
            r == regs::with_field(regs::with_field(sqr1, 6, 5, channel.value()), 0, 4, 0),
            regs::field(r, 6, 5) == channel.value(),
            regs::field(r, 0, 4) == 0,
            forall|j: u32| j < 32 && !(j < 4 || 6 <= j < 11) ==> regs::bit(r, j) == regs::bit(sqr1, j),
    {
        let v = set_field(sqr1, 6, 5, channel.bits());
        let r = set_field(v, 0, 4, 0);
        let ghost ch = channel.value();
        assert({
            &&& (r >> 6u32) & 31u32 == ch
            &&& (r >> 0u32) & 15u32 == 0
            &&& forall|j: u32| j < 32 && !(j < 4 || 6 <= j < 11) ==> regs::bit(r, j) == regs::bit(sqr1, j)
        }) by (bit_vector)
            requires
                ch <= 31,
                v == (sqr1 & !(31u32 << 6u32)) | (ch << 6u32),
                r == (v & !(15u32 << 0u32)) | (0u32 << 0u32),
        ;
        r
    }

    /// CR with a regular conversion started (ADSTART, bit 2).
    pub fn start_conversion(&self, cr: u32) -> (r: u32)
        ensures
            r == regs::with_bit(cr, 2, true),
    {
        set_bit(cr, 2)
    }

    /// CR with the ongoing conversion stopped (ADSTP, bit 4).
    pub fn stop_conversion(&self, cr: u32) -> (r: u32)
        ensures
            r == regs::with_bit(cr, 4, true),
    {
        set_bit(cr, 4)
    }

    /// Whether ISR reports the end of a conversion (EOC, bit 2).
    pub fn is_conversion_complete(&self, isr: u32) -> (r: bool)
        ensures
            r == regs::bit(isr, 2),
    {
        test_bit(isr, 2)
    }

    /// The conversion result held in DR, truncated to its low 16 bits.
    pub fn read(&self, dr: u32) -> (r: u16)
        ensures
            r == dr as u16,
    {
        dr as u16
    }

    /// Common CCR with the temperature sensor enabled (VSENSEEN, bit 23), the
    /// first step of `read_temperature`.
    pub fn enable_temperature_sensor(&self, ccr: u32) -> (r: u32)
        ensures
            r == regs::with_bit(ccr, 23, true),
    {
        set_bit(ccr, 23)
    }

    /// Common CCR with the internal reference enabled (VREFEN, bit 22), the
    /// first step of `read_vrefint`.
    pub fn enable_vrefint(&self, ccr: u32) -> (r: u32)
        ensures
            r == regs::with_bit(ccr, 22, true),
    {
        set_bit(ccr, 22)
    }

    /// Temperature in millidegrees Celsius from a raw conversion of the
    /// temperature channel and the factory calibration values taken at 30 °C
    /// (`ts_cal1`) and 130 °C (`ts_cal2`):
    /// `100 * (raw - ts_cal1) * 1000 / (ts_cal2 - ts_cal1) + 30000`, the
    /// division rounding toward zero.
    pub fn read_temperature(&self, raw: u16, ts_cal1: u16, ts_cal2: u16) -> (r: i32)
        requires
            ts_cal1 != ts_cal2,
            i32::MIN <= 100000 * (raw - ts_cal1) <= i32::MAX,
            temperature_mdeg(raw as int, ts_cal1 as int, ts_cal2 as int) <= i32::MAX,
        ensures
            r == temperature_mdeg(raw as int, ts_cal1 as int, ts_cal2 as int),
    {
        let num: i32 = (130 - 30) * (raw as i32 - ts_cal1 as i32) * 1000;
        let den: i32 = ts_cal2 as i32 - ts_cal1 as i32;
        let q = div_toward_zero(num, den);
        q + 30000
    }

    /// VDD in millivolts from a raw conversion of the VREFINT channel and its
    /// factory calibration value taken at 3.0 V: `3000 * vrefint_cal / raw`,
    /// rounded down.
    pub fn read_vrefint(&self, raw: u16, vrefint_cal: u16) -> (r: u32)
        requires
            raw != 0,
        ensures
            r == 3000 * vrefint_cal / (raw as int),
    {
        (3000u32 * vrefint_cal as u32) / raw as u32
    }

}

/// The ADC channel wired to GPIO pin `pin` of port `port` (0 = A, 1 = B,
/// 2 = C), if any.
pub open spec fn channel_of_pin(port: u8, pin: u8) -> Option<Channel> {
    match (port, pin) {
        (0, 0) => Some(Channel::Channel0),
        (0, 1) => Some(Channel::Channel1),
        (0, 2) => Some(Channel::Channel2),
        (0, 3) => Some(Channel::Channel3),
        (0, 4) => Some(Channel::Channel4),
        (0, 5) => Some(Channel::Channel5),
        (0, 6) => Some(Channel::Channel6),
        (0, 7) => Some(Channel::Channel7),
        (2, 0) => Some(Channel::Channel8),
        (2, 1) => Some(Channel::Channel9),
        (2, 2) => Some(Channel::Channel10),
        (2, 3) => Some(Channel::Channel11),
        (1, 0) => Some(Channel::Channel12),
        (1, 1) => Some(Channel::Channel13),
        (1, 2) => Some(Channel::Channel14),
        (1, 4) => Some(Channel::Channel15),
        _ => None,
    }
}

/// GPIO to ADC channel mapping helper: PA0-PA7 are channels 0-7, PC0-PC3
/// channels 8-11, PB0-PB2 channels 12-14 and PB4 channel 15.
pub fn gpio_to_channel(port: u8, pin: u8) -> (r: Option<Channel>)
    ensures
        r == channel_of_pin(port, pin),
        port == 0 && pin < 8 ==> r is Some && r->0.value() == pin,
        port == 2 && pin < 4 ==> r is Some && r->0.value() == 8 + pin,
        port == 1 && pin < 3 ==> r is Some && r->0.value() == 12 + pin,
        port == 1 && pin == 4 ==> r is Some && r->0.value() == 15,
        !((port == 0 && pin < 8) || (port == 2 && pin < 4) || (port == 1 && (pin < 3 || pin == 4))) ==> r is None,
{
    proof {
        lemma_gpio_channel_numbers(port, pin);
    }
    match (port, pin) {
        (0, 0) => Some(Channel::Channel0),
        (0, 1) => Some(Channel::Channel1),
        (0, 2) => Some(Channel::Channel2),
        (0, 3) => Some(Channel::Channel3),
        (0, 4) => Some(Channel::Channel4),
        (0, 5) => Some(Channel::Channel5),
        (0, 6) => Some(Channel::Channel6),
        (0, 7) => Some(Channel::Channel7),
        (2, 0) => Some(Channel::Channel8),
        (2, 1) => Some(Channel::Channel9),
        (2, 2) => Some(Channel::Channel10),
        (2, 3) => Some(Channel::Channel11),
        (1, 0) => Some(Channel::Channel12),
        (1, 1) => Some(Channel::Channel13),
        (1, 2) => Some(Channel::Channel14),
        (1, 4) => Some(Channel::Channel15),
        _ => None,
    }
}

/// The channel number of each analog pin, for every port and pin: PA0-PA7
/// are channels 0-7 (the pin number), PC0-PC3 channels 8-11, PB0-PB2
/// channels 12-14 and PB4 channel 15; every other pin has no channel.
pub proof fn lemma_gpio_channel_numbers(port: u8, pin: u8)
    ensures
        port == 0 && pin < 8 ==> channel_of_pin(port, pin) is Some && channel_of_pin(port, pin)->0.value() == pin,
        port == 2 && pin < 4 ==> channel_of_pin(port, pin) is Some && channel_of_pin(port, pin)->0.value() == 8 + pin,
        port == 1 && pin < 3 ==> channel_of_pin(port, pin) is Some && channel_of_pin(port, pin)->0.value() == 12 + pin,
        port == 1 && pin == 4 ==> channel_of_pin(port, pin) is Some && channel_of_pin(port, pin)->0.value() == 15,
        !((port == 0 && pin < 8) || (port == 2 && pin < 4) || (port == 1 && (pin < 3 || pin == 4))) ==> channel_of_pin(
            port,
            pin,
        ) is None,
{
}

/// No two GPIO pins share an ADC channel, and a pin maps only to one of the
/// external channels 0-15.
pub proof fn lemma_gpio_channels_distinct(port1: u8, pin1: u8, port2: u8, pin2: u8)
    requires
        channel_of_pin(port1, pin1) is Some,
        channel_of_pin(port1, pin1) == channel_of_pin(port2, pin2),
    ensures
        port1 == port2,
        pin1 == pin2,
        channel_of_pin(port1, pin1)->0.value() < 16,
{
}

/// At the two calibration points the temperature formula gives exactly the
/// calibration temperatures: 30 °C at `ts_cal1` and 130 °C at `ts_cal2`.
pub proof fn lemma_temperature_calibration_points(ts_cal1: int, ts_cal2: int)
    requires
        ts_cal1 != ts_cal2,
    ensures
        temperature_mdeg(ts_cal1, ts_cal1, ts_cal2) == 30000,
        temperature_mdeg(ts_cal2, ts_cal1, ts_cal2) == 130000,
{
    let d = ts_cal2 - ts_cal1;
    assert(math::abs(100000 * d) / math::abs(d) == 100000) by (nonlinear_arith)
        requires
            d != 0,
            math::abs(100000 * d) == 100000 * math::abs(d),
    ;
    assert(100 * (ts_cal2 - ts_cal1) * 1000 == 100000 * d);
    assert(math::abs(100000 * d) == 100000 * math::abs(d));
}

/// A raw VREFINT reading equal to its calibration value means VDD is the
/// calibration voltage, 3000 mV.
pub proof fn lemma_vrefint_calibration_point(vrefint_cal: u16)
    requires
        vrefint_cal != 0,
    ensures
        3000 * vrefint_cal / (vrefint_cal as int) == 3000,
{
    assert(3000 * (vrefint_cal as int) / (vrefint_cal as int) == 3000) by (nonlinear_arith)
        requires
            vrefint_cal > 0,
    ;
}

/// The configuration of `init_adc1_default` and `init_adc4_default`: 12-bit
/// single conversions with the clock divided by 4, no scan, no DMA.
pub open spec fn default_config() -> Config {
    Config { resolution: Resolution::Bits12, clock_prescaler: ClockPrescaler::Div4, continuous: false, scan_mode: false, dma_enable: false, overrun_mode: false }
}

/// The registers of `init_adc1_default` on ADC1, once its clock is enabled:
/// `Adc::init` with the default configuration, from CCR as read.
pub fn init_adc1_default(ccr: u32) -> (r: InitRegisters)
    ensures
        r.ccr == regs::with_field(ccr, 18, 4, default_config().clock_prescaler.value()),
        r.cfgr == Adc::cfgr_value(default_config()),
{
    let adc = Adc::adc1();
    let config = Config::default();
    adc.init(&config, ccr)
}

/// The registers of `init_adc4_default` on ADC4, once its clock is enabled:
/// `Adc::init` with the default configuration, from CCR as read.
pub fn init_adc4_default(ccr: u32) -> (r: InitRegisters)
    ensures
        r.ccr == regs::with_field(ccr, 18, 4, default_config().clock_prescaler.value()),
        r.cfgr == Adc::cfgr_value(default_config()),
{
    let adc = Adc::adc4();
    let config = Config::default();
    adc.init(&config, ccr)
}

} // verus!
