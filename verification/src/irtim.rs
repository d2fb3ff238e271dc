//! IRTIM - Infrared Timer
//!
//! # Overview
//! STM32U5 Infrared Timer (IRTIM) provides infrared modulation capabilities,
//! allowing the generation of infrared remote control signals with various
//! modulation schemes.
//!
//! # Features
//! Reference: RM0456 Chapter 60: Infrared timer (IRTIM)
//!
//! ## Main Features
//! - Infrared signal generation
//! - Support for multiple modulation schemes
//! - Carrier frequency generation
//! - Programmable duty cycle
//! - Integration with GPIO for IR output
//! - Low power modes support
//!
//! # Reference
//! - RM0456 Chapter 60: Infrared timer (IRTIM)
//! - Register map: RM0456, Section 60.4, pages 2471-2484
//! - IRTIM Control Register (IRTIM_CR): RM0456, Section 60.4.1, page 2472
//! - IRTIM Status Register (IRTIM_SR): RM0456, Section 60.4.2, page 2474
use vstd::prelude::*;
use crate::regs::{self, RegisterWrite, clear_bit, set_bit, test_bit};
pub mod reg;
pub mod bits;

verus! {

broadcast use regs::lemma_low_mask_value;

/// IRTIM base address
pub const IRTIM_BASE: usize = 0x4001_5800;

/// Infrared modulation mode
#[derive(Clone, Copy, Debug, PartialEq, Eq, Structural)]
pub enum ModulationMode {
    /// No modulation (direct output)
    Direct,
    /// PWM modulation
    Pwm,
    /// Manchester encoding
    Manchester,
    /// RC5 encoding
    Rc5,
}

impl ModulationMode {
    /// The register encoding of this value.
    pub open spec fn value(self) -> u32 {
        match self {
            ModulationMode::Direct => 0u32,
            ModulationMode::Pwm => 1u32,
            ModulationMode::Manchester => 2u32,
            ModulationMode::Rc5 => 3u32,
        }
    }

    /// The register encoding of this value.
    pub fn bits(self) -> (r: u32)
        ensures
            r == self.value(),
    {
        match self {
            ModulationMode::Direct => 0,
            ModulationMode::Pwm => 1,
            ModulationMode::Manchester => 2,
            ModulationMode::Rc5 => 3,
        }
    }
}

/// IRTIM instance
pub struct Irtim;

impl Irtim {
    /// Create IRTIM instance
    pub fn new() -> (r: Self) {
        Irtim
    }

    /// CR with the counter enabled (CEN, bit 0).
    pub fn enable(&self, cr: u32) -> (r: u32)
        ensures
            r == regs::with_bit(cr, 0, true),
    {
        set_bit(cr, 0)
    }

    /// CR with the counter disabled.
    pub fn disable(&self, cr: u32) -> (r: u32)
        ensures
            r == regs::with_bit(cr, 0, false),
    {
        clear_bit(cr, 0)
    }

    /// The write of `set_prescaler`.
    pub fn set_prescaler(&self, value: u16) -> (r: RegisterWrite)
        ensures
            r == (RegisterWrite { offset: reg::PSC, value: value as u32 }),
    {
        RegisterWrite { offset: reg::PSC, value: value as u32 }
    }

    /// The write of `set_auto_reload`.
    pub fn set_auto_reload(&self, value: u16) -> (r: RegisterWrite)
        ensures
            r == (RegisterWrite { offset: reg::ARR, value: value as u32 }),
    {
        RegisterWrite { offset: reg::ARR, value: value as u32 }
    }

    /// The write of `set_ccr1`.
    pub fn set_ccr1(&self, value: u16) -> (r: RegisterWrite)
        ensures
            r == (RegisterWrite { offset: reg::CCR1, value: value as u32 }),
    {
        RegisterWrite { offset: reg::CCR1, value: value as u32 }
    }

    /// The write of `set_ccr2`.
    pub fn set_ccr2(&self, value: u16) -> (r: RegisterWrite)
        ensures
            r == (RegisterWrite { offset: reg::CCR2, value: value as u32 }),
    {
        RegisterWrite { offset: reg::CCR2, value: value as u32 }
    }

    /// The write of `set_ccr3`.
    pub fn set_ccr3(&self, value: u16) -> (r: RegisterWrite)
        ensures
            r == (RegisterWrite { offset: reg::CCR3, value: value as u32 }),
    {
        RegisterWrite { offset: reg::CCR3, value: value as u32 }
    }

    /// The write of `set_ccr4`.
    pub fn set_ccr4(&self, value: u16) -> (r: RegisterWrite)
        ensures
            r == (RegisterWrite { offset: reg::CCR4, value: value as u32 }),
    {
        RegisterWrite { offset: reg::CCR4, value: value as u32 }
    }

    /// The counter as `get_counter` reads it: the upper half of the word.
    pub fn get_counter(&self, word: u32) -> (r: u16)
        ensures
            r == (word >> 16u32) as u16,
    {
        (word >> 16) as u16
    }

    /// IER with the update interrupt enabled (UIE, bit 0).
    pub fn enable_update_interrupt(&self, ier: u32) -> (r: u32)
        ensures
            r == regs::with_bit(ier, 0, true),
    {
        set_bit(ier, 0)
    }

    /// IER with the update interrupt disabled.
    pub fn disable_update_interrupt(&self, ier: u32) -> (r: u32)
        ensures
            r == regs::with_bit(ier, 0, false),
    {
        clear_bit(ier, 0)
    }

    /// Whether the status word reports an update (UIF, bit 0).
    pub fn is_update_flag(&self, sr: u32) -> (r: bool)
        ensures
            r == regs::bit(sr, 0),
    {
        test_bit(sr, 0)
    }

    /// ICR word of `clear_update_flag`.
    pub fn clear_update_flag(&self) -> (r: u32)
        ensures
            r == bits::icr::UIF,
    {
        bits::icr::UIF
    }

    /// CR with an update event requested (bit 1).
    pub fn generate_update_event(&self, cr: u32) -> (r: u32)
        ensures
            r == regs::with_bit(cr, 1, true),
    {
        set_bit(cr, 1)
    }

    /// CR with auto-reload preload enabled (ARPE, bit 7).
    pub fn enable_auto_reload_preload(&self, cr: u32) -> (r: u32)
        ensures
            r == regs::with_bit(cr, 7, true),
    {
        set_bit(cr, 7)
    }

    /// CR with auto-reload preload disabled.
    pub fn disable_auto_reload_preload(&self, cr: u32) -> (r: u32)
        ensures
            r == regs::with_bit(cr, 7, false),
    {
        clear_bit(cr, 7)
    }

    /// Timer ticks per carrier period.
    pub open spec fn carrier_period(carrier_freq_hz: u32, timer_freq_hz: u32) -> u32 {
        (timer_freq_hz / carrier_freq_hz) as u32
    }

    /// Prescaler of `configure_pwm_ir`: one more than the number of whole
    /// 0xFFFF-tick spans in the period.
    pub open spec fn pwm_prescaler(period: u32) -> u16 {
        ((period / 0xFFFF) as u16 + 1) as u16
    }

    /// Auto-reload count of `configure_pwm_ir`: the period divided by the
    /// prescaler, in 16 bits.
    pub open spec fn pwm_arr(period: u32) -> u16 {
        (period / (Self::pwm_prescaler(period) as u32)) as u16
    }

    /// The writes of `configure_pwm_ir`: PSC (prescaler − 1), ARR (auto-reload
    /// − 1), CCR1 (`duty_cycle_percent` percent of the auto-reload), CR with
    /// auto-reload preload, CR with an update event, then the update flag
    /// clear.
    pub fn configure_pwm_ir(&self, carrier_freq_hz: u32, duty_cycle_percent: u8, timer_freq_hz: u32, cr: u32) -> (r: Vec<RegisterWrite>)
        requires
            carrier_freq_hz != 0,
            ((Self::carrier_period(carrier_freq_hz, timer_freq_hz) / 0xFFFF) as u16) < 0xFFFF,
            Self::pwm_arr(Self::carrier_period(carrier_freq_hz, timer_freq_hz)) >= 1,
        ensures
            ({
                let period = Self::carrier_period(carrier_freq_hz, timer_freq_hz);
                let psc = Self::pwm_prescaler(period);
                let arr = Self::pwm_arr(period);
                r@ == seq![
                    RegisterWrite { offset: reg::PSC, value: (psc - 1) as u32 },
                    RegisterWrite { offset: reg::ARR, value: (arr - 1) as u32 },
                    RegisterWrite { offset: reg::CCR1, value: ((arr * duty_cycle_percent / 100) as u16) as u32 },
                    RegisterWrite { offset: reg::CR, value: regs::with_bit(cr, 7, true) },
                    RegisterWrite { offset: reg::CR, value: regs::with_bit(regs::with_bit(cr, 7, true), 1, true) },
                    RegisterWrite { offset: reg::ICR, value: bits::icr::UIF },
                ]
            }),
    {
        let period = timer_freq_hz / carrier_freq_hz;
        let prescaler: u16 = (period / 0xFFFF) as u16 + 1;
        let arr: u16 = (period / prescaler as u32) as u16;
        assert(arr as u32 * duty_cycle_percent as u32 <= 0xFFFF * 0xFF) by (nonlinear_arith)
            requires
                arr <= 0xFFFF,
                duty_cycle_percent <= 0xFF,
        ;
        let ccr: u16 = (arr as u32 * duty_cycle_percent as u32 / 100) as u16;
        let mut r: Vec<RegisterWrite> = Vec::new();
        r.push(self.set_prescaler(prescaler - 1));
        r.push(self.set_auto_reload(arr - 1));
        r.push(self.set_ccr1(ccr));
        let cr1 = self.enable_auto_reload_preload(cr);
        r.push(RegisterWrite { offset: reg::CR, value: cr1 });
        r.push(RegisterWrite { offset: reg::CR, value: self.generate_update_event(cr1) });
        r.push(RegisterWrite { offset: reg::ICR, value: self.clear_update_flag() });
        r
    }

    /// CR of `start_transmission`: the counter enabled.
    pub fn start_transmission(&self, cr: u32) -> (r: u32)
        ensures
            r == regs::with_bit(cr, 0, true),
    {
        self.enable(cr)
    }

    /// CR of `stop_transmission`: the counter disabled.
    pub fn stop_transmission(&self, cr: u32) -> (r: u32)
        ensures
            r == regs::with_bit(cr, 0, false),
    {
        self.disable(cr)
    }

}

/// The writes of `init_irtim_default`: `configure_pwm_ir` for a 38 kHz
/// carrier at 50 % duty from a 16 MHz timer clock, which comes to a period of
/// 421 ticks with no prescaling.
pub fn init_irtim_default(cr: u32) -> (r: Vec<RegisterWrite>)
    ensures
        r@ == seq![
            RegisterWrite { offset: reg::PSC, value: 0 },
            RegisterWrite { offset: reg::ARR, value: 420 },
            RegisterWrite { offset: reg::CCR1, value: 210 },
            RegisterWrite { offset: reg::CR, value: regs::with_bit(cr, 7, true) },
            RegisterWrite { offset: reg::CR, value: regs::with_bit(regs::with_bit(cr, 7, true), 1, true) },
            RegisterWrite { offset: reg::ICR, value: bits::icr::UIF },
        ],
{
    let irtim = Irtim::new();
    assert(Irtim::carrier_period(38000, 16000000) == 421) by (nonlinear_arith);
    assert(Irtim::pwm_prescaler(421) == 1) by (nonlinear_arith);
    assert(Irtim::pwm_arr(421) == 421) by (nonlinear_arith);
    assert(((421u16 * 50u8 / 100) as u16) as u32 == 210) by (nonlinear_arith);
    irtim.configure_pwm_ir(38000, 50, 16000000, cr)
}

} // verus!
