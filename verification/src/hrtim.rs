//! HRTIM - High Resolution Timer
//!
//! ## Features
//! - One master timer and five timing units (Timer A-E)
//! - 184 ps timebase resolution, with clock prescaling (1, 2, 4)
//! - Ten PWM outputs, with four fault inputs
//! - ADC/DAC triggers and burst mode
//! - Interrupts, events and DMA requests
//!
//! ## Reference
//! - RM0456 Reference Manual, Chapter 37: High resolution timer (HRTIM)
use vstd::prelude::*;
use crate::regs::{self, RegisterWrite, widen, clear_bit, flag_bits, set_bit, test_bit};

verus! {

broadcast use regs::lemma_low_mask_value;

/// HRTIM base address
/// AHB2 bus, accessible at 0x4003_6C00
pub const HRTIM_BASE: usize = 0x4003_6C00;
/// HRTIM Master Timer base address
pub const HRTIM_MASTER_BASE: usize = HRTIM_BASE + 0x000;
/// HRTIM Timer A base address
pub const HRTIM_TIMA_BASE: usize = HRTIM_BASE + 0x080;
/// HRTIM Timer B base address
pub const HRTIM_TIMB_BASE: usize = HRTIM_BASE + 0x100;
/// HRTIM Timer C base address
pub const HRTIM_TIMC_BASE: usize = HRTIM_BASE + 0x180;
/// HRTIM Timer D base address
pub const HRTIM_TIMD_BASE: usize = HRTIM_BASE + 0x200;
/// HRTIM Timer E base address
pub const HRTIM_TIME_BASE: usize = HRTIM_BASE + 0x280;
/// HRTIM Common registers base address
pub const HRTIM_COMMON_BASE: usize = HRTIM_BASE + 0x380;

/// Offsets of the timer-unit registers (`HrtimTimerRegs` layout) and of the
/// master timer registers (`HrtimMasterRegs` layout) shared by both.
pub const TIM_CR: usize = 0x00;
/// Interrupt status register offset.
pub const TIM_ISR: usize = 0x04;
/// Interrupt clear register offset.
pub const TIM_ICR: usize = 0x08;
/// Interrupt enable register offset.
pub const TIM_DIER: usize = 0x0C;
/// Counter offset.
pub const TIM_CNT: usize = 0x10;
/// Period register offset.
pub const TIM_PER: usize = 0x14;
/// Repetition register offset.
pub const TIM_REP: usize = 0x18;
/// Compare 1 offset.
pub const TIM_CMP1: usize = 0x1C;
/// Master compare 2 offset.
pub const MASTER_CMP2: usize = 0x20;
/// Master compare 3 offset.
pub const MASTER_CMP3: usize = 0x24;
/// Master compare 4 offset.
pub const MASTER_CMP4: usize = 0x28;
/// Timer-unit compare 2 offset.
pub const TIM_CMP2: usize = 0x24;
/// Timer-unit compare 3 offset.
pub const TIM_CMP3: usize = 0x28;
/// Timer-unit compare 4 offset.
pub const TIM_CMP4: usize = 0x2C;
/// Timer-unit dead-time register offset.
pub const TIM_DTR: usize = 0x38;
/// Timer-unit output register offset.
pub const TIM_OUTR: usize = 0x64;
/// Common control register 1 offset (`HrtimCommonRegs` layout).
pub const COMMON_CR1: usize = 0x00;
/// Common interrupt status register offset.
pub const COMMON_ISR: usize = 0x08;
/// Common interrupt clear register offset.
pub const COMMON_ICR: usize = 0x0C;
/// Output enable register offset.
pub const COMMON_OENR: usize = 0x14;
/// Output disable register offset.
pub const COMMON_ODISR: usize = 0x18;
/// Output disable status register offset.
pub const COMMON_ODSR: usize = 0x1C;
/// Burst mode control register offset.
pub const COMMON_BMCR: usize = 0x20;
/// Burst mode trigger register offset.
pub const COMMON_BMTRGR: usize = 0x24;
/// ADC trigger 1 register offset.
pub const COMMON_ADC1R: usize = 0x3C;
/// DLL control register offset.
pub const COMMON_DLLCR: usize = 0x4C;
/// Fault input register 1 offset.
pub const COMMON_FLTINR1: usize = 0x50;


/// HRTIM Timer selection
#[derive(Clone, Copy, Debug, PartialEq, Eq, Structural)]
pub enum Timer {
    /// Master Timer
    Master,
    /// Timer A
    A,
    /// Timer B
    B,
    /// Timer C
    C,
    /// Timer D
    D,
    /// Timer E
    E,
}

impl Timer {
    /// The register encoding of this value.
    pub open spec fn value(self) -> u32 {
        match self {
            Timer::Master => 0u32,
            Timer::A => 1u32,
            Timer::B => 2u32,
            Timer::C => 3u32,
            Timer::D => 4u32,
            Timer::E => 5u32,
        }
    }

    /// The register encoding of this value.
    pub fn bits(self) -> (r: u32)
        ensures
            r == self.value(),
    {
        match self {
            Timer::Master => 0,
            Timer::A => 1,
            Timer::B => 2,
            Timer::C => 3,
            Timer::D => 4,
            Timer::E => 5,
        }
    }
}

/// Timer prescaler
#[derive(Clone, Copy, Debug, PartialEq, Eq, Structural)]
pub enum Prescaler {
    /// Clock divide by 1
    Div1,
    /// Clock divide by 2
    Div2,
    /// Clock divide by 4
    Div4,
}

impl Prescaler {
    /// The register encoding of this value.
    pub open spec fn value(self) -> u32 {
        match self {
            Prescaler::Div1 => 0u32,
            Prescaler::Div2 => 1u32,
            Prescaler::Div4 => 2u32,
        }
    }

    /// The register encoding of this value.
    pub fn bits(self) -> (r: u32)
        ensures
            r == self.value(),
    {
        match self {
            Prescaler::Div1 => 0,
            Prescaler::Div2 => 1,
            Prescaler::Div4 => 2,
        }
    }
}

/// External event source
#[derive(Clone, Copy, Debug, PartialEq, Eq, Structural)]
pub enum Event {
    /// Event source 1
    Src1,
    /// Event source 2
    Src2,
    /// Event source 3
    Src3,
    /// Event source 4
    Src4,
}

impl Event {
    /// The register encoding of this value.
    pub open spec fn value(self) -> u32 {
        match self {
            Event::Src1 => 0u32,
            Event::Src2 => 1u32,
            Event::Src3 => 2u32,
            Event::Src4 => 3u32,
        }
    }

    /// The register encoding of this value.
    pub fn bits(self) -> (r: u32)
        ensures
            r == self.value(),
    {
        match self {
            Event::Src1 => 0,
            Event::Src2 => 1,
            Event::Src3 => 2,
            Event::Src4 => 3,
        }
    }
}

/// HRTIM Timer Register Map
pub struct HrtimTimerRegs {
    /// Timer Control Register
    pub cr: u32,
    /// Timer Interrupt Status Register
    pub isr: u32,
    /// Timer Interrupt Clear Register
    pub icr: u32,
    /// Timer DMA/Interrupt Enable Register
    pub dier: u32,
    /// Timer Counter Register
    pub cnt: u32,
    /// Timer Period Register
    pub per: u32,
    /// Timer Repetition Register
    pub rep: u32,
    /// Timer Compare 1 Register
    pub cmp1: u32,
    /// Timer Compare 1 Compound Register
    pub cmp1c: u32,
    /// Timer Compare 2 Register
    pub cmp2: u32,
    /// Timer Compare 3 Register
    pub cmp3: u32,
    /// Timer Compare 4 Register
    pub cmp4: u32,
    /// Timer Capture 1 Register
    pub cpt1: u32,
    /// Timer Capture 2 Register
    pub cpt2: u32,
    /// Timer Deadtime Register
    pub dtr: u32,
    /// Timer Output 1 Set Register
    pub set1r: u32,
    /// Timer Output 1 Reset Register
    pub rst1r: u32,
    /// Timer Output 2 Set Register
    pub set2r: u32,
    /// Timer Output 2 Reset Register
    pub rst2r: u32,
    /// Timer External Event Filter Register 1
    pub eefr1: u32,
    /// Timer External Event Filter Register 2
    pub eefr2: u32,
    /// Timer Output Register
    pub rstr: u32,
    /// Timer Chopper Register
    pub chpr: u32,
    /// Timer Capture 1 Control Register
    pub cpt1cr: u32,
    /// Timer Capture 2 Control Register
    pub cpt2cr: u32,
    /// Timer Output Configuration Register
    pub outr: u32,
    /// Timer Fault Register
    pub fltr: u32,
}

/// HRTIM Master Register Map
pub struct HrtimMasterRegs {
    /// Master Control Register
    pub cr: u32,
    /// Master Interrupt Status Register
    pub isr: u32,
    /// Master Interrupt Clear Register
    pub icr: u32,
    /// Master DMA/Interrupt Enable Register
    pub dier: u32,
    /// Master Counter Register
    pub cnt: u32,
    /// Master Period Register
    pub per: u32,
    /// Master Repetition Register
    pub rep: u32,
    /// Master Compare 1 Register
    pub cmp1: u32,
    /// Master Compare 2 Register
    pub cmp2: u32,
    /// Master Compare 3 Register
    pub cmp3: u32,
    /// Master Compare 4 Register
    pub cmp4: u32,
}

/// HRTIM Common Register Map
pub struct HrtimCommonRegs {
    /// Common Control Register 1
    pub cr1: u32,
    /// Common Control Register 2
    pub cr2: u32,
    /// Common Interrupt Status Register
    pub isr: u32,
    /// Common Interrupt Clear Register
    pub icr: u32,
    /// Common Interrupt Enable Register
    pub ier: u32,
    /// Common Output Enable Register
    pub oenr: u32,
    /// Common Output Disable Register
    pub odisr: u32,
    /// Common Output Disable Status Register
    pub odsr: u32,
    /// Burst Mode Control Register
    pub bmcr: u32,
    /// Burst Mode Trigger Register
    pub bmtrgr: u32,
    /// Burst Mode Compare Register
    pub bmcmpcr: u32,
    /// Burst Mode Period Register
    pub bmper: u32,
    /// Common EE Control Register 1
    pub eecr1: u32,
    /// Common EE Control Register 2
    pub eecr2: u32,
    /// Common EE Control Register 3
    pub eecr3: u32,
    /// ADC Trigger 1 Register
    pub adc1r: u32,
    /// ADC Trigger 2 Register
    pub adc2r: u32,
    /// ADC Trigger 3 Register
    pub adc3r: u32,
    /// ADC Trigger 4 Register
    pub adc4r: u32,
    /// DLL Control Register
    pub dllcr: u32,
    /// Fault Input Register 1
    pub fltinr1: u32,
    /// Fault Input Register 2
    pub fltinr2: u32,
    /// Burst Mode Update Period Register
    pub bdmupr: u32,
    /// Burst Mode Update Duty Cycle Register
    pub bdtupr: u32,
    /// Burst Mode Compare Period Register
    pub bdcmpcr: u32,
    /// Burst Mode DMA Update Register
    pub bdmadr: u32,
}

/// HRTIM instance
pub struct Hrtim;

/// Timer configuration
#[derive(Clone, Copy, Debug)]
pub struct TimerConfig {
    /// Timer prescaler
    pub prescaler: Prescaler,
    /// Timer period
    pub period: u16,
    /// Timer repetition counter
    pub repetition: u8,
    /// Continuous mode
    pub continuous: bool,
}

impl Default for TimerConfig {
    fn default() -> (r: Self)
        ensures
            r == (TimerConfig { prescaler: Prescaler::Div1, period: 0xFFFF, repetition: 0, continuous: true }),
    {
        TimerConfig { prescaler: Prescaler::Div1, period: 0xFFFF, repetition: 0, continuous: true }
    }
}

/// PWM configuration
#[derive(Clone, Copy, Debug)]
pub struct PwmConfig {
    /// Compare 1 value
    pub cmp1: u16,
    /// Compare 2 value
    pub cmp2: u16,
    /// Compare 3 value
    pub cmp3: u16,
    /// Compare 4 value
    pub cmp4: u16,
    /// Output 1 polarity
    pub output1_polarity: bool,
    /// Output 2 polarity
    pub output2_polarity: bool,
    /// Output 1 idle state
    pub output1_idle_state: bool,
    /// Output 2 idle state
    pub output2_idle_state: bool,
    /// Fault enabled
    pub fault_enabled: bool,
    /// Deadtime rising
    pub deadtime_rising: u16,
    /// Deadtime falling
    pub deadtime_falling: u16,
}

impl Default for PwmConfig {
    fn default() -> (r: Self)
        ensures
            r == (PwmConfig { cmp1: 0, cmp2: 0, cmp3: 0, cmp4: 0, output1_polarity: false, output2_polarity: false, output1_idle_state: false, output2_idle_state: false, fault_enabled: true, deadtime_rising: 0, deadtime_falling: 0 }),
    {
        PwmConfig { cmp1: 0, cmp2: 0, cmp3: 0, cmp4: 0, output1_polarity: false, output2_polarity: false, output1_idle_state: false, output2_idle_state: false, fault_enabled: true, deadtime_rising: 0, deadtime_falling: 0 }
    }
}

impl Hrtim {
    /// Create new HRTIM instance
    pub fn new() -> (r: Self) {
        Hrtim
    }

    /// AHB2ENR with the HRTIM clock enabled (bit 29).
    pub fn enable_clock(&self, ahb2enr: u32) -> (r: u32)
        ensures
            r == regs::with_bit(ahb2enr, 29, true),
    {
        set_bit(ahb2enr, 29)
    }

    /// AHB2ENR with the HRTIM clock disabled.
    pub fn disable_clock(&self, ahb2enr: u32) -> (r: u32)
        ensures
            r == regs::with_bit(ahb2enr, 29, false),
    {
        clear_bit(ahb2enr, 29)
    }

    /// The two AHB2RSTR words of `reset`: bit 29 asserted, then released.
    pub fn reset(&self, ahb2rstr: u32) -> (r: (u32, u32))
        ensures
            r.0 == regs::with_bit(ahb2rstr, 29, true),
            r.1 == regs::with_bit(r.0, 29, false),
    {
        let a = set_bit(ahb2rstr, 29);
        (a, clear_bit(a, 29))
    }

    /// The common-block writes of `calibrate_dll`: DLLCR start, then, once
    /// the common ISR reports the calibration done (bit 0), its flag clear.
    pub fn calibrate_dll(&self) -> (r: [RegisterWrite; 2])
        ensures
            r[0] == (RegisterWrite { offset: COMMON_DLLCR, value: 1 }),
            r[1] == (RegisterWrite { offset: COMMON_ICR, value: 1 }),
    {
        [RegisterWrite { offset: COMMON_DLLCR, value: 1 }, RegisterWrite { offset: COMMON_ICR, value: 1 }]
    }

    /// Base address of the register block of `timer`: the master timer or one
    /// of the timer units A to E.
    pub open spec fn block_base(timer: Timer) -> usize {
        match timer {
            Timer::Master => HRTIM_MASTER_BASE,
            Timer::A => HRTIM_TIMA_BASE,
            Timer::B => HRTIM_TIMB_BASE,
            Timer::C => HRTIM_TIMC_BASE,
            Timer::D => HRTIM_TIMD_BASE,
            Timer::E => HRTIM_TIME_BASE,
        }
    }

    /// Base address of the register block of `timer`.
    pub fn timer_base(&self, timer: Timer) -> (r: usize)
        ensures
            r == Self::block_base(timer),
    {
        match timer {
            Timer::Master => HRTIM_MASTER_BASE,
            Timer::A => HRTIM_TIMA_BASE,
            Timer::B => HRTIM_TIMB_BASE,
            Timer::C => HRTIM_TIMC_BASE,
            Timer::D => HRTIM_TIMD_BASE,
            Timer::E => HRTIM_TIME_BASE,
        }
    }

    /// Timer CR value of a configuration: the prescaler at bit 3, and
    /// single-shot mode (bit 2) unless continuous.
    pub open spec fn timer_cr(config: TimerConfig) -> u32 {
        (config.prescaler.value() << 3) | ((if config.continuous { 0u32 } else { 1u32 }) << 2)
    }

    /// The writes of `configure_master` to the master block: CR, the period
    /// and the repetition count.
    pub fn configure_master(&self, config: &TimerConfig) -> (r: [RegisterWrite; 3])
        ensures
            r[0] == (RegisterWrite { offset: TIM_CR, value: Self::timer_cr(*config) }),
            r[1] == (RegisterWrite { offset: TIM_PER, value: config.period as u32 }),
            r[2] == (RegisterWrite { offset: TIM_REP, value: config.repetition as u32 }),
    {
        let single: u32 = if config.continuous { 0 } else { 1 };
        [
            RegisterWrite { offset: TIM_CR, value: (config.prescaler.bits() << 3) | (single << 2) },
            RegisterWrite { offset: TIM_PER, value: config.period as u32 },
            RegisterWrite { offset: TIM_REP, value: config.repetition as u32 },
        ]
    }

    /// The writes of `configure_timer` to the block of `timer` (see
    /// `timer_base`); the master timer is configured as `configure_master`
    /// does, at the same offsets.
    pub fn configure_timer(&self, timer: Timer, config: &TimerConfig) -> (r: [RegisterWrite; 3])
        ensures
            r[0] == (RegisterWrite { offset: TIM_CR, value: Self::timer_cr(*config) }),
            r[1] == (RegisterWrite { offset: TIM_PER, value: config.period as u32 }),
            r[2] == (RegisterWrite { offset: TIM_REP, value: config.repetition as u32 }),
    {
        self.configure_master(config)
    }

    /// The writes of `configure_pwm` to the block of a timer unit: the four
    /// compare values, OUTR (output polarities at bits 1 and 3, idle states at
    /// bits 8 and 9) and DTR (rising dead time at bit 16, falling at bit 0);
    /// nothing for the master timer.
    pub fn configure_pwm(&self, timer: Timer, config: &PwmConfig) -> (r: Vec<RegisterWrite>)
        ensures
            timer == Timer::Master ==> r@.len() == 0,
            timer != Timer::Master ==> r@ == seq![
                RegisterWrite { offset: TIM_CMP1, value: regs::wide(config.cmp1) },
                RegisterWrite { offset: TIM_CMP2, value: regs::wide(config.cmp2) },
                RegisterWrite { offset: TIM_CMP3, value: regs::wide(config.cmp3) },
                RegisterWrite { offset: TIM_CMP4, value: regs::wide(config.cmp4) },
                RegisterWrite {
                    offset: TIM_OUTR,
                    value: (regs::flag(config.output1_polarity) << 1) | (regs::flag(config.output2_polarity) << 3)
                        | (regs::flag(config.output1_idle_state) << 8) | (regs::flag(config.output2_idle_state) << 9),
                },
                RegisterWrite { offset: TIM_DTR, value: (regs::wide(config.deadtime_rising) << 16) | regs::wide(config.deadtime_falling) },
            ],
    {
        let mut r: Vec<RegisterWrite> = Vec::new();
        if timer == Timer::Master {
            return r;
        }
        r.push(RegisterWrite { offset: TIM_CMP1, value: widen(config.cmp1) });
        r.push(RegisterWrite { offset: TIM_CMP2, value: widen(config.cmp2) });
        r.push(RegisterWrite { offset: TIM_CMP3, value: widen(config.cmp3) });
        r.push(RegisterWrite { offset: TIM_CMP4, value: widen(config.cmp4) });
        let outr = (flag_bits(config.output1_polarity) << 1) | (flag_bits(config.output2_polarity) << 3)
            | (flag_bits(config.output1_idle_state) << 8) | (flag_bits(config.output2_idle_state) << 9);
        r.push(RegisterWrite { offset: TIM_OUTR, value: outr });
        r.push(RegisterWrite { offset: TIM_DTR, value: (widen(config.deadtime_rising) << 16) | widen(config.deadtime_falling) });
        r
    }

    /// Common CR1 with the counter of `timer` enabled: bit 0 for the master
    /// timer, bits 1-5 for units A-E.
    pub fn start_timer(&self, timer: Timer, cr1: u32) -> (r: u32)
        ensures
            r == regs::with_bit(cr1, timer.value(), true),
    {
        set_bit(cr1, timer.bits())
    }

    /// Common CR1 with the counter of `timer` disabled.
    pub fn stop_timer(&self, timer: Timer, cr1: u32) -> (r: u32)
        ensures
            r == regs::with_bit(cr1, timer.value(), false),
    {
        clear_bit(cr1, timer.bits())
    }

    /// OENR word of `enable_outputs`: all six output pairs.
    pub fn enable_outputs(&self) -> (r: u32)
        ensures
            r == 0x3F,
    {
        0x3F
    }

    /// ODISR word of `disable_outputs`: all six output pairs.
    pub fn disable_outputs(&self) -> (r: u32)
        ensures
            r == 0x3F,
    {
        0x3F
    }

    /// Whether ODSR shows all six outputs enabled.
    pub fn are_outputs_enabled(&self, odsr: u32) -> (r: bool)
        ensures
            r == (odsr & 0x3Fu32 == 0x3Fu32),
    {
        odsr & 0x3F == 0x3F
    }

    /// The write of `set_compare` in the block of `timer`: compare register
    /// `unit` (1 to 4) gets `value`; any other number writes nothing.
    pub fn set_compare(&self, timer: Timer, unit: u8, value: u16) -> (r: Option<RegisterWrite>)
        ensures
            r == if 1 <= unit <= 4 {
                Some(RegisterWrite {
                    offset: if timer == Timer::Master {
                        if unit == 1 { TIM_CMP1 } else if unit == 2 { MASTER_CMP2 } else if unit == 3 { MASTER_CMP3 } else { MASTER_CMP4 }
                    } else {
                        if unit == 1 { TIM_CMP1 } else if unit == 2 { TIM_CMP2 } else if unit == 3 { TIM_CMP3 } else { TIM_CMP4 }
                    },
                    value: value as u32,
                })
            } else {
                None::<RegisterWrite>
            },
    {
        let master = timer == Timer::Master;
        let offset = match unit {
            1 => TIM_CMP1,
            2 => if master { MASTER_CMP2 } else { TIM_CMP2 },
            3 => if master { MASTER_CMP3 } else { TIM_CMP3 },
            4 => if master { MASTER_CMP4 } else { TIM_CMP4 },
            _ => return None,
        };
        Some(RegisterWrite { offset, value: value as u32 })
    }

    /// The counter value, truncated to 16 bits.
    pub fn get_counter(&self, cnt: u32) -> (r: u16)
        ensures
            r == cnt as u16,
    {
        cnt as u16
    }

    /// The write of `set_period` in the block of `timer`.
    pub fn set_period(&self, timer: Timer, period: u16) -> (r: RegisterWrite)
        ensures
            r == (RegisterWrite { offset: TIM_PER, value: period as u32 }),
    {
        RegisterWrite { offset: TIM_PER, value: period as u32 }
    }

    /// DIER with interrupt `source` enabled.
    pub fn enable_interrupt(&self, timer: Timer, source: u8, dier: u32) -> (r: u32)
        requires
            source < 32,
        ensures
            r == regs::with_bit(dier, source as u32, true),
    {
        set_bit(dier, source as u32)
    }

    /// DIER with interrupt `source` disabled.
    pub fn disable_interrupt(&self, timer: Timer, source: u8, dier: u32) -> (r: u32)
        requires
            source < 32,
        ensures
            r == regs::with_bit(dier, source as u32, false),
    {
        clear_bit(dier, source as u32)
    }

    /// ICR word of `clear_interrupt`.
    pub fn clear_interrupt(&self, timer: Timer, source: u8) -> (r: u32)
        requires
            source < 32,
        ensures
            r == 1u32 << (source as u32),
    {
        1u32 << (source as u32)
    }

    /// Whether ISR flags interrupt `source`.
    pub fn is_interrupt_active(&self, timer: Timer, source: u8, isr: u32) -> (r: bool)
        requires
            source < 32,
        ensures
            r == regs::bit(isr, source as u32),
    {
        test_bit(isr, source as u32)
    }

    /// Offset in the common block of the ADC trigger register `adc_num` (1 to
    /// 4), if any.
    pub open spec fn adc_trigger_reg(adc_num: u8) -> usize {
        (COMMON_ADC1R + 4 * (adc_num - 1)) as usize
    }

    /// The common-block write of `configure_adc_trigger`: the ADC trigger
    /// register of `adc_num` (1 to 4) with the bit of `event` set; nothing for
    /// any other ADC number. The trigger register `adcr` is the current value
    /// of that register; `timer` and `compare` do not affect what is written.
    pub fn configure_adc_trigger(&self, adc_num: u8, event: u8, timer: Timer, compare: u8, adcr: u32) -> (r: Option<RegisterWrite>)
        requires
            1 <= adc_num <= 4 ==> event < 32,
        ensures
            r == if 1 <= adc_num <= 4 {
                Some(RegisterWrite { offset: Self::adc_trigger_reg(adc_num), value: regs::with_bit(adcr, event as u32, true) })
            } else {
                None::<RegisterWrite>
            },
    {
        if adc_num >= 1 && adc_num <= 4 {
            Some(RegisterWrite { offset: COMMON_ADC1R + 4 * (adc_num as usize - 1), value: set_bit(adcr, event as u32) })
        } else {
            None
        }
    }

    /// FLTINR1 with fault input `fault` enabled (bit `8 * fault`).
    pub fn enable_fault(&self, fault: u8, fltinr1: u32) -> (r: u32)
        requires
            fault < 4,
        ensures
            r == regs::with_bit(fltinr1, (8 * fault) as u32, true),
    {
        set_bit(fltinr1, (fault as u32) * 8)
    }

    /// FLTINR1 with fault input `fault` disabled.
    pub fn disable_fault(&self, fault: u8, fltinr1: u32) -> (r: u32)
        requires
            fault < 4,
        ensures
            r == regs::with_bit(fltinr1, (8 * fault) as u32, false),
    {
        clear_bit(fltinr1, (fault as u32) * 8)
    }

    /// BMTRGR word of `enter_burst_mode`.
    pub fn enter_burst_mode(&self) -> (r: u32)
        ensures
            r == 1,
    {
        1
    }

    /// BMTRGR word of `exit_burst_mode`.
    pub fn exit_burst_mode(&self) -> (r: u32)
        ensures
            r == 2,
    {
        2
    }

    /// BMCR value of `configure_burst_mode`: prescaler at bit 16, period at
    /// bit 0.
    pub fn configure_burst_mode(&self, prescaler: u8, period: u16) -> (r: u32)
        ensures
            r == ((prescaler as u32) << 16) | (period as u32),
    {
        ((prescaler as u32) << 16) | (period as u32)
    }

    /// Prescale factor selected by bits 3-4 of a timer CR: 1, 2 or 4, and 1
    /// for the unused code 3.
    pub open spec fn prescale_factor(cr: u32) -> u32 {
        let p = (cr >> 3u32) & 3u32;
        if p == 1 { 2 } else if p == 2 { 4 } else { 1 }
    }

    /// The period write of `update_frequency`: for the prescale factor that
    /// the timer's CR selects, `sysclk_mhz * 1e6 / (frequency * factor) - 1`,
    /// truncated to 16 bits.
    pub fn update_frequency(&self, timer: Timer, frequency_hz: u32, sysclk_mhz: u32, cr: u32) -> (r: RegisterWrite)
        requires
            sysclk_mhz * 1_000_000 <= u32::MAX,
            frequency_hz * Self::prescale_factor(cr) <= u32::MAX,
            frequency_hz * Self::prescale_factor(cr) > 0,
            (sysclk_mhz * 1_000_000) / (frequency_hz * Self::prescale_factor(cr)) >= 1,
        ensures
            r == (RegisterWrite {
                offset: TIM_PER,
                value: (((sysclk_mhz * 1_000_000) / (frequency_hz * Self::prescale_factor(cr)) - 1) as u16) as u32,
            }),
    {
        let prescaler = (cr >> 3) & 0x03;
        let factor: u32 = match prescaler {
            0 => 1,
            1 => 2,
            2 => 4,
            _ => 1,
        };
        let period = (sysclk_mhz * 1_000_000) / (frequency_hz * factor) - 1;
        self.set_period(timer, period as u16)
    }

}

} // verus!
