//! LPTIM - Low Power Timer
//!
//! # Overview
//! STM32U5 Low Power Timer (LPTIM) provides up to 6 independent low-power
//! timer modules that can operate in Stop mode.
//!
//! # Features
//! Reference: RM0456 Chapter 58: Low-power timer (LPTIM)
//!
//! ## Timer Count
//! - **LPTIM1-LPTIM6**: 6 independent low-power timers
//!
//! ## Counter
//! - 16-bit up/down counter
//! - 32-bit resolution with repetition register
//!
//! ## Clock Sources
//! Reference: RM0456 Section 58.3.2: Clock source selection
//! - **LSI**: Low Speed Internal (32 kHz)
//! - **LSE**: Low Speed External (32.768 kHz)
//! - **PCLK**: Peripheral Clock
//! - **HSI16**: High Speed Internal (16 MHz)
//!
//! ## Modes
//! - Encoder mode
//! - Timeout function
//! - PWM output
//! - One-shot mode
//! - Continuous mode
//!
//! ## Features
//! - Operates in Stop mode
//! - Low power consumption
//! - External input capture
//! - Internal trigger generation
//!
//! # Reference
//! - RM0456 Chapter 58: Low-power timer (LPTIM)
//! - RM0456 Section 58.1: LPTIM introduction
//! - RM0456 Section 58.2: LPTIM main features
//! - RM0456 Section 58.3: LPTIM functional description
//! - RM0456 Section 58.4: LPTIM registers
use vstd::prelude::*;
use crate::regs::{self, RegisterWrite, clear_bit, flag_bits, set_bit, test_bit};
pub mod reg;
pub mod cfgr_bits;
pub mod cr_bits;
pub mod isr_bits;

verus! {

broadcast use regs::lemma_low_mask_value;

/// LPTIM1 base address (APB1)
pub const LPTIM1_BASE: usize = 0x4000_7C00;
/// LPTIM2 base address (APB1)
pub const LPTIM2_BASE: usize = 0x4000_9400;
/// LPTIM3 base address (APB1)
pub const LPTIM3_BASE: usize = 0x4000_9800;
/// LPTIM4 base address (APB1)
pub const LPTIM4_BASE: usize = 0x4000_9C00;
/// LPTIM5 base address (APB1)
pub const LPTIM5_BASE: usize = 0x4000_A000;
/// LPTIM6 base address (APB1)
pub const LPTIM6_BASE: usize = 0x4000_A400;

/// LPTIM clock source
#[derive(Clone, Copy, Debug, PartialEq, Eq, Structural)]
pub enum ClockSource {
    /// APB clock
    Apb,
    /// LSI clock
    Lsi,
    /// HSI16 clock
    Hsi16,
    /// LSE clock
    Lse,
}

impl ClockSource {
    /// The register encoding of this value.
    pub open spec fn value(self) -> u32 {
        match self {
            ClockSource::Apb => 0b00u32,
            ClockSource::Lsi => 0b01u32,
            ClockSource::Hsi16 => 0b10u32,
            ClockSource::Lse => 0b11u32,
        }
    }

    /// The register encoding of this value.
    pub fn bits(self) -> (r: u32)
        ensures
            r == self.value(),
    {
        match self {
            ClockSource::Apb => 0b00,
            ClockSource::Lsi => 0b01,
            ClockSource::Hsi16 => 0b10,
            ClockSource::Lse => 0b11,
        }
    }
}

/// LPTIM prescaler
#[derive(Clone, Copy, Debug, PartialEq, Eq, Structural)]
pub enum Prescaler {
    /// Divide by 1
    Div1,
    /// Divide by 2
    Div2,
    /// Divide by 4
    Div4,
    /// Divide by 8
    Div8,
    /// Divide by 16
    Div16,
    /// Divide by 32
    Div32,
    /// Divide by 64
    Div64,
    /// Divide by 128
    Div128,
}

impl Prescaler {
    /// The register encoding of this value.
    pub open spec fn value(self) -> u32 {
        match self {
            Prescaler::Div1 => 0b000u32,
            Prescaler::Div2 => 0b001u32,
            Prescaler::Div4 => 0b010u32,
            Prescaler::Div8 => 0b011u32,
            Prescaler::Div16 => 0b100u32,
            Prescaler::Div32 => 0b101u32,
            Prescaler::Div64 => 0b110u32,
            Prescaler::Div128 => 0b111u32,
        }
    }

    /// The register encoding of this value.
    pub fn bits(self) -> (r: u32)
        ensures
            r == self.value(),
    {
        match self {
            Prescaler::Div1 => 0b000,
            Prescaler::Div2 => 0b001,
            Prescaler::Div4 => 0b010,
            Prescaler::Div8 => 0b011,
            Prescaler::Div16 => 0b100,
            Prescaler::Div32 => 0b101,
            Prescaler::Div64 => 0b110,
            Prescaler::Div128 => 0b111,
        }
    }
}

/// LPTIM filter
#[derive(Clone, Copy, Debug, PartialEq, Eq, Structural)]
pub enum Filter {
    /// Any external input change is considered valid
    NoFilter,
    /// External input change must be stable for 2 clock periods
    Clocks2,
    /// External input change must be stable for 4 clock periods
    Clocks4,
    /// External input change must be stable for 8 clock periods
    Clocks8,
}

impl Filter {
    /// The register encoding of this value.
    pub open spec fn value(self) -> u32 {
        match self {
            Filter::NoFilter => 0b00u32,
            Filter::Clocks2 => 0b01u32,
            Filter::Clocks4 => 0b10u32,
            Filter::Clocks8 => 0b11u32,
        }
    }

    /// The register encoding of this value.
    pub fn bits(self) -> (r: u32)
        ensures
            r == self.value(),
    {
        match self {
            Filter::NoFilter => 0b00,
            Filter::Clocks2 => 0b01,
            Filter::Clocks4 => 0b10,
            Filter::Clocks8 => 0b11,
        }
    }
}

/// LPTIM configuration
#[derive(Clone, Copy, Debug)]
pub struct Config {
    pub clock_source: ClockSource,
    pub prescaler: Prescaler,
    pub filter: Filter,
    pub waveform_polarity: bool,
    pub preload_enable: bool,
}

impl Default for Config {
    fn default() -> (r: Self)
        ensures
            r == (Config { clock_source: ClockSource::Lse, prescaler: Prescaler::Div1, filter: Filter::NoFilter, waveform_polarity: false, preload_enable: true }),
    {
        Config { clock_source: ClockSource::Lse, prescaler: Prescaler::Div1, filter: Filter::NoFilter, waveform_polarity: false, preload_enable: true }
    }
}

/// LPTIM instance
pub struct Lptim {
    base: usize,
}

impl Lptim {
    /// Base address of this instance's register block.
    pub closed spec fn base_addr(&self) -> usize {
        self.base
    }

    /// Base address of this instance's register block.
    pub fn base(&self) -> (r: usize)
        ensures
            r == self.base_addr(),
    {
        self.base
    }

    /// Create LPTIM1 instance
    pub fn lptim1() -> (r: Self)
        ensures
            r.base_addr() == LPTIM1_BASE,
    {
        Self { base: LPTIM1_BASE }
    }

    /// Create LPTIM2 instance
    pub fn lptim2() -> (r: Self)
        ensures
            r.base_addr() == LPTIM2_BASE,
    {
        Self { base: LPTIM2_BASE }
    }

    /// Create LPTIM3 instance
    pub fn lptim3() -> (r: Self)
        ensures
            r.base_addr() == LPTIM3_BASE,
    {
        Self { base: LPTIM3_BASE }
    }

    /// Create LPTIM4 instance
    pub fn lptim4() -> (r: Self)
        ensures
            r.base_addr() == LPTIM4_BASE,
    {
        Self { base: LPTIM4_BASE }
    }

    /// Create LPTIM5 instance
    pub fn lptim5() -> (r: Self)
        ensures
            r.base_addr() == LPTIM5_BASE,
    {
        Self { base: LPTIM5_BASE }
    }

    /// Create LPTIM6 instance
    pub fn lptim6() -> (r: Self)
        ensures
            r.base_addr() == LPTIM6_BASE,
    {
        Self { base: LPTIM6_BASE }
    }

    /// CFGR value for a configuration: clock source at bit 0, prescaler at
    /// bit 3, filter at bit 6, inverted waveform at bit 17, register preload
    /// at bit 22.
    pub open spec fn cfgr_value(config: Config) -> u32 {
        config.clock_source.value() | (config.prescaler.value() << 3u32) | (config.filter.value() << 6u32)
            | (if config.waveform_polarity { 1u32 << 17u32 } else { 0u32 }) | (if config.preload_enable {
            1u32 << 22u32
        } else {
            0u32
        })
    }

    /// CFGR value written by `init`.
    pub fn init(&self, config: &Config) -> (r: u32)
        ensures
            r == Self::cfgr_value(*config),
    {
        let pol: u32 = if config.waveform_polarity { 1u32 << 17u32 } else { 0u32 };
        let pre: u32 = if config.preload_enable { 1u32 << 22u32 } else { 0u32 };
        config.clock_source.bits() | (config.prescaler.bits() << 3u32) | (config.filter.bits() << 6u32) | pol | pre
    }

    /// CR with the timer enabled (ENABLE, bit 0).
    pub fn enable(&self, cr: u32) -> (r: u32)
        ensures
            r == regs::with_bit(cr, 0, true),
    {
        set_bit(cr, 0)
    }

    /// CR with the timer disabled (ENABLE, bit 0).
    pub fn disable(&self, cr: u32) -> (r: u32)
        ensures
            r == regs::with_bit(cr, 0, false),
    {
        clear_bit(cr, 0)
    }

    /// CR with continuous counting started (CNTSTRT, bit 2).
    pub fn start_continuous(&self, cr: u32) -> (r: u32)
        ensures
            r == regs::with_bit(cr, 2, true),
    {
        set_bit(cr, 2)
    }

    /// CR with a single count started (SNGSTRT, bit 1).
    pub fn start_single(&self, cr: u32) -> (r: u32)
        ensures
            r == regs::with_bit(cr, 1, true),
    {
        set_bit(cr, 1)
    }

    /// The ARR write of `set_auto_reload`.
    pub fn set_auto_reload(&self, value: u16) -> (r: RegisterWrite)
        ensures
            r == (RegisterWrite { offset: reg::ARR, value: value as u32 }),
    {
        RegisterWrite { offset: reg::ARR, value: value as u32 }
    }

    /// The CMP write of `set_compare`.
    pub fn set_compare(&self, value: u16) -> (r: RegisterWrite)
        ensures
            r == (RegisterWrite { offset: reg::CMP, value: value as u32 }),
    {
        RegisterWrite { offset: reg::CMP, value: value as u32 }
    }

    /// The RCR write of `set_repetition`.
    pub fn set_repetition(&self, value: u8) -> (r: RegisterWrite)
        ensures
            r == (RegisterWrite { offset: reg::RCR, value: value as u32 }),
    {
        RegisterWrite { offset: reg::RCR, value: value as u32 }
    }

    /// The counter, the low 16 bits of CNT.
    pub fn get_counter(&self, cnt: u32) -> (r: u16)
        ensures
            r == cnt as u16,
    {
        cnt as u16
    }

    /// Whether the counter has matched the compare value (CMPM, bit 0).
    pub fn is_match(&self, isr: u32) -> (r: bool)
        ensures
            r == regs::bit(isr, 0),
    {
        test_bit(isr, 0)
    }

    /// Whether the counter has matched the auto-reload value (ARRM, bit 1).
    pub fn is_autoreload_match(&self, isr: u32) -> (r: bool)
        ensures
            r == regs::bit(isr, 1),
    {
        test_bit(isr, 1)
    }

    /// ICR word of `clear_match`.
    pub fn clear_match(&self) -> (r: u32)
        ensures
            r == isr_bits::CMPM,
    {
        isr_bits::CMPM
    }

    /// ICR word of `clear_autoreload`.
    pub fn clear_autoreload(&self) -> (r: u32)
        ensures
            r == isr_bits::ARRM,
    {
        isr_bits::ARRM
    }

    /// IER value of `enable_interrupt`: the compare-match interrupt at bit 0
    /// and the auto-reload-match interrupt at bit 1, each when asked for.
    pub fn enable_interrupt(&self, match_int: bool, arr_int: bool) -> (r: u32)
        ensures
            r == regs::flag(match_int) | (regs::flag(arr_int) << 1u32),
    {
        flag_bits(match_int) | (flag_bits(arr_int) << 1u32)
    }

    /// IER value of `disable_interrupt`: every interrupt off.
    pub fn disable_interrupt(&self) -> (r: u32)
        ensures
            r == 0,
    {
        0
    }

    /// The writes of `configure_pwm`: ARR = `period`, then CMP = `duty`.
    pub fn configure_pwm(&self, period: u16, duty: u16) -> (r: [RegisterWrite; 2])
        ensures
            r[0] == (RegisterWrite { offset: reg::ARR, value: period as u32 }),
            r[1] == (RegisterWrite { offset: reg::CMP, value: duty as u32 }),
    {
        [self.set_auto_reload(period), self.set_compare(duty)]
    }

}

/// LPTIM1 configuration of `init_lptim1_delay`: LSE clock divided by 32
/// (1 kHz ticks).
pub open spec fn delay_config() -> Config {
    Config { clock_source: ClockSource::Lse, prescaler: Prescaler::Div32, filter: Filter::NoFilter, waveform_polarity: false, preload_enable: true }
}

/// The writes of `init_lptim1_delay` on LPTIM1, once its clock is enabled
/// (APB1ENR1 with `rcc::apb1::LPTIM1`): CFGR for a 1 kHz LSE tick, then CR
/// enabled.
pub fn init_lptim1_delay(cr: u32) -> (r: [RegisterWrite; 2])
    ensures
        r[0] == (RegisterWrite { offset: reg::CFGR, value: Lptim::cfgr_value(delay_config()) }),
        r[1] == (RegisterWrite { offset: reg::CR, value: regs::with_bit(cr, 0, true) }),
{
    let lptim = Lptim::lptim1();
    let config = Config { clock_source: ClockSource::Lse, prescaler: Prescaler::Div32, ..Config::default() };
    [RegisterWrite { offset: reg::CFGR, value: lptim.init(&config) }, RegisterWrite { offset: reg::CR, value: lptim.enable(cr) }]
}

/// The writes of `delay_ms_lptim1` before it waits for the compare match:
/// ARR = `ms`, then CR with a single count started. Once `is_match` reads
/// true, the delay ends with the ICR word of `clear_match`.
pub fn delay_ms_lptim1(ms: u16, cr: u32) -> (r: [RegisterWrite; 2])
    ensures
        r[0] == (RegisterWrite { offset: reg::ARR, value: ms as u32 }),
        r[1] == (RegisterWrite { offset: reg::CR, value: regs::with_bit(cr, 1, true) }),
{
    let lptim = Lptim::lptim1();
    [lptim.set_auto_reload(ms), RegisterWrite { offset: reg::CR, value: lptim.start_single(cr) }]
}

/// LPTIM2 configuration of `init_lptim2_pwm`: HSI16 divided by 4 (4 MHz).
pub open spec fn pwm_config() -> Config {
    Config { clock_source: ClockSource::Hsi16, prescaler: Prescaler::Div4, filter: Filter::NoFilter, waveform_polarity: false, preload_enable: true }
}

/// PWM period of `init_lptim2_pwm`: 4 MHz ticks per cycle of
/// `frequency_hz`, truncated to 16 bits.
pub open spec fn pwm_period(frequency_hz: u32) -> u16 {
    (16_000_000u32 / 4 / frequency_hz) as u16
}

/// PWM compare value of `init_lptim2_pwm`: `duty_cycle_percent` percent of
/// the period, truncated to 16 bits.
pub open spec fn pwm_duty(frequency_hz: u32, duty_cycle_percent: u8) -> u16 {
    (pwm_period(frequency_hz) as u32 * duty_cycle_percent as u32 / 100) as u16
}

/// The writes of `init_lptim2_pwm` on LPTIM2, once its clock is enabled:
/// CFGR for 4 MHz ticks, ARR and CMP for the period and duty, CR enabled,
/// then CR with continuous counting started.
pub fn init_lptim2_pwm(frequency_hz: u32, duty_cycle_percent: u8, cr: u32) -> (r: Vec<RegisterWrite>)
    requires
        frequency_hz != 0,
    ensures
        r@ == seq![
            RegisterWrite { offset: reg::CFGR, value: Lptim::cfgr_value(pwm_config()) },
            RegisterWrite { offset: reg::ARR, value: pwm_period(frequency_hz) as u32 },
            RegisterWrite { offset: reg::CMP, value: pwm_duty(frequency_hz, duty_cycle_percent) as u32 },
            RegisterWrite { offset: reg::CR, value: regs::with_bit(cr, 0, true) },
            RegisterWrite { offset: reg::CR, value: regs::with_bit(regs::with_bit(cr, 0, true), 2, true) },
        ],
{
    let lptim = Lptim::lptim2();
    let config = Config { clock_source: ClockSource::Hsi16, prescaler: Prescaler::Div4, ..Config::default() };
    let mut r: Vec<RegisterWrite> = Vec::new();
    r.push(RegisterWrite { offset: reg::CFGR, value: lptim.init(&config) });
    let period: u16 = (16_000_000u32 / 4 / frequency_hz) as u16;
    assert(period as u32 * duty_cycle_percent as u32 <= 0xFFFF * 0xFF) by (nonlinear_arith)
        requires
            period <= 0xFFFF,
            duty_cycle_percent <= 0xFF,
    ;
    let duty: u16 = (period as u32 * duty_cycle_percent as u32 / 100) as u16;
    let pwm = lptim.configure_pwm(period, duty);
    r.push(pwm[0]);
    r.push(pwm[1]);
    let cr1 = lptim.enable(cr);
    r.push(RegisterWrite { offset: reg::CR, value: cr1 });
    r.push(RegisterWrite { offset: reg::CR, value: lptim.start_continuous(cr1) });
    r
}

/// LPTIM3 configuration of `init_lptim3_encoder`: APB clock, undivided, with
/// a 4-clock input filter.
pub open spec fn encoder_config() -> Config {
    Config { clock_source: ClockSource::Apb, prescaler: Prescaler::Div1, filter: Filter::Clocks4, waveform_polarity: false, preload_enable: true }
}

/// The writes of `init_lptim3_encoder` on LPTIM3, once its clock is enabled:
/// CFGR for encoder counting, then CR enabled.
pub fn init_lptim3_encoder(cr: u32) -> (r: [RegisterWrite; 2])
    ensures
        r[0] == (RegisterWrite { offset: reg::CFGR, value: Lptim::cfgr_value(encoder_config()) }),
        r[1] == (RegisterWrite { offset: reg::CR, value: regs::with_bit(cr, 0, true) }),
{
    let lptim = Lptim::lptim3();
    let config = Config { clock_source: ClockSource::Apb, prescaler: Prescaler::Div1, filter: Filter::Clocks4, ..Config::default() };
    [RegisterWrite { offset: reg::CFGR, value: lptim.init(&config) }, RegisterWrite { offset: reg::CR, value: lptim.enable(cr) }]
}

/// The encoder position: the LPTIM3 counter read from CNT.
pub fn get_encoder_count(cnt: u32) -> (r: u16)
    ensures
        r == cnt as u16,
{
    let lptim = Lptim::lptim3();
    lptim.get_counter(cnt)
}

} // verus!
