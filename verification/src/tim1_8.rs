//! TIM1/TIM8 - Advanced-control Timers
//!
//! # Overview
//! STM32U5 advanced-control timers TIM1 and TIM8 provide sophisticated
//! timing capabilities with complementary outputs, dead-time insertion,
//! and emergency stop functions.
//!
//! # Features
//! Reference: RM0456 Chapter 54: Advanced-control timers (TIM1 and TIM8)
//!
//! ## Main Features
//! - 16-bit up/down auto-reload counter
//! - Up to 4 capture/compare channels
//! - Complementary outputs with dead-time insertion
//! - Emergency stop input (break)
//! - Programmable dead-time generator
//! - Repetition counter
//! - DMA support
//! - Break input for emergency stop
//!
//! # Reference
//! - RM0456 Chapter 54: Advanced-control timers (TIM1 and TIM8)
//! - Register map: RM0456, Section 54.4, pages 2147-2232
//! - TIMx Control Register 1 (TIMx_CR1): RM0456, Section 54.4.1, page 2148
//! - TIMx Status Register (TIMx_SR): RM0456, Section 54.4.5, page 2156
//! - TIMx Capture/Compare Registers (TIMx_CCRx): RM0456, Section 54.4.14, page 2168
use vstd::prelude::*;
use crate::regs::{self, RegisterWrite, clear_bit, set_bit, set_field, test_bit};
pub mod reg;
pub mod bits;

verus! {

broadcast use regs::lemma_low_mask_value;

/// TIM1 base address (APB2)
pub const TIM1_BASE: usize = 0x4001_0000;
/// TIM8 base address (APB2)
pub const TIM8_BASE: usize = 0x4001_3400;

/// Advanced Timer instance
pub struct AdvancedTimer {
    base: usize,
}

impl AdvancedTimer {
    /// Base address of this instance's register block.
    pub closed spec fn base_addr(&self) -> usize {
        self.base
    }

    /// Base address of this instance's register block.
    pub fn base(&self) -> (r: usize)
        ensures
            r == self.base_addr(),
    {
        self.base
    }

    /// Create TIM1 instance
    pub fn tim1() -> (r: Self)
        ensures
            r.base_addr() == TIM1_BASE,
    {
        Self { base: TIM1_BASE }
    }

    /// Create TIM8 instance
    pub fn tim8() -> (r: Self)
        ensures
            r.base_addr() == TIM8_BASE,
    {
        Self { base: TIM8_BASE }
    }

    /// CR1 with the counter enabled (CEN, bit 0).
    pub fn enable(&self, cr1: u32) -> (r: u32)
        ensures
            r == regs::with_bit(cr1, 0, true),
    {
        set_bit(cr1, 0)
    }

    /// CR1 with the counter disabled (CEN, bit 0).
    pub fn disable(&self, cr1: u32) -> (r: u32)
        ensures
            r == regs::with_bit(cr1, 0, false),
    {
        clear_bit(cr1, 0)
    }

    /// The PSC write of `set_prescaler`.
    pub fn set_prescaler(&self, value: u16) -> (r: RegisterWrite)
        ensures
            r == (RegisterWrite { offset: reg::PSC, value: value as u32 }),
    {
        RegisterWrite { offset: reg::PSC, value: value as u32 }
    }

    /// The ARR write of `set_auto_reload`.
    pub fn set_auto_reload(&self, value: u16) -> (r: RegisterWrite)
        ensures
            r == (RegisterWrite { offset: reg::ARR, value: value as u32 }),
    {
        RegisterWrite { offset: reg::ARR, value: value as u32 }
    }

    /// The RCR write of `set_repetition_counter`.
    pub fn set_repetition_counter(&self, value: u8) -> (r: RegisterWrite)
        ensures
            r == (RegisterWrite { offset: reg::RCR, value: value as u32 }),
    {
        RegisterWrite { offset: reg::RCR, value: value as u32 }
    }

    /// The counter, the low 16 bits of CNT.
    pub fn get_counter(&self, cnt: u32) -> (r: u16)
        ensures
            r == cnt as u16,
    {
        cnt as u16
    }

    /// The CNT write of `set_counter`.
    pub fn set_counter(&self, value: u16) -> (r: RegisterWrite)
        ensures
            r == (RegisterWrite { offset: reg::CNT, value: value as u32 }),
    {
        RegisterWrite { offset: reg::CNT, value: value as u32 }
    }

    /// The CCR1 write of `set_ccr1`.
    pub fn set_ccr1(&self, value: u16) -> (r: RegisterWrite)
        ensures
            r == (RegisterWrite { offset: reg::CCR1, value: value as u32 }),
    {
        RegisterWrite { offset: reg::CCR1, value: value as u32 }
    }

    /// The CCR2 write of `set_ccr2`.
    pub fn set_ccr2(&self, value: u16) -> (r: RegisterWrite)
        ensures
            r == (RegisterWrite { offset: reg::CCR2, value: value as u32 }),
    {
        RegisterWrite { offset: reg::CCR2, value: value as u32 }
    }

    /// The CCR3 write of `set_ccr3`.
    pub fn set_ccr3(&self, value: u16) -> (r: RegisterWrite)
        ensures
            r == (RegisterWrite { offset: reg::CCR3, value: value as u32 }),
    {
        RegisterWrite { offset: reg::CCR3, value: value as u32 }
    }

    /// The CCR4 write of `set_ccr4`.
    pub fn set_ccr4(&self, value: u16) -> (r: RegisterWrite)
        ensures
            r == (RegisterWrite { offset: reg::CCR4, value: value as u32 }),
    {
        RegisterWrite { offset: reg::CCR4, value: value as u32 }
    }

    /// The CCR5 write of `set_ccr5`.
    pub fn set_ccr5(&self, value: u16) -> (r: RegisterWrite)
        ensures
            r == (RegisterWrite { offset: reg::CCR5, value: value as u32 }),
    {
        RegisterWrite { offset: reg::CCR5, value: value as u32 }
    }

    /// The CCR6 write of `set_ccr6`.
    pub fn set_ccr6(&self, value: u16) -> (r: RegisterWrite)
        ensures
            r == (RegisterWrite { offset: reg::CCR6, value: value as u32 }),
    {
        RegisterWrite { offset: reg::CCR6, value: value as u32 }
    }

    /// BDTR with the main output enabled (MOE, bit 15).
    pub fn enable_main_output(&self, bdtr: u32) -> (r: u32)
        ensures
            r == regs::with_bit(bdtr, 15, true),
    {
        set_bit(bdtr, 15)
    }

    /// BDTR with the main output disabled (MOE, bit 15).
    pub fn disable_main_output(&self, bdtr: u32) -> (r: u32)
        ensures
            r == regs::with_bit(bdtr, 15, false),
    {
        clear_bit(bdtr, 15)
    }

    /// BDTR with the dead-time generator (DTG, bits 0-7) set to `dtg`.
    pub fn set_dead_time(&self, dtg: u8, bdtr: u32) -> (r: u32)
        ensures
            r == regs::with_field(bdtr, 0, 8, dtg as u32),
            regs::field(r, 0, 8) == dtg,
    {
        proof {
            regs::lemma_with_field(bdtr, 0, 8, dtg as u32);
        }
        set_field(bdtr, 0, 8, dtg as u32)
    }

    /// DIER with the update interrupt enabled (UIE, bit 0).
    pub fn enable_update_interrupt(&self, dier: u32) -> (r: u32)
        ensures
            r == regs::with_bit(dier, 0, true),
    {
        set_bit(dier, 0)
    }

    /// DIER with the update interrupt disabled (UIE, bit 0).
    pub fn disable_update_interrupt(&self, dier: u32) -> (r: u32)
        ensures
            r == regs::with_bit(dier, 0, false),
    {
        clear_bit(dier, 0)
    }

    /// Whether an update event is flagged (UIF, bit 0 of SR).
    pub fn is_update_flag(&self, sr: u32) -> (r: bool)
        ensures
            r == regs::bit(sr, 0),
    {
        test_bit(sr, 0)
    }

    /// SR with the update flag (UIF, bit 0) cleared.
    pub fn clear_update_flag(&self, sr: u32) -> (r: u32)
        ensures
            r == regs::with_bit(sr, 0, false),
    {
        clear_bit(sr, 0)
    }

    /// EGR word of `generate_update_event`: UG.
    pub fn generate_update_event(&self) -> (r: u32)
        ensures
            r == bits::egr::UG,
    {
        bits::egr::UG
    }

    /// EGR word of `generate_com_event`: COMG.
    pub fn generate_com_event(&self) -> (r: u32)
        ensures
            r == bits::egr::COMG,
    {
        bits::egr::COMG
    }

    /// CR1 with auto-reload preload enabled (ARPE, bit 7).
    pub fn enable_auto_reload_preload(&self, cr1: u32) -> (r: u32)
        ensures
            r == regs::with_bit(cr1, 7, true),
    {
        set_bit(cr1, 7)
    }

    /// CR1 with auto-reload preload disabled (ARPE, bit 7).
    pub fn disable_auto_reload_preload(&self, cr1: u32) -> (r: u32)
        ensures
            r == regs::with_bit(cr1, 7, false),
    {
        clear_bit(cr1, 7)
    }

}

impl Default for AdvancedTimer {
    /// TIM1.
    fn default() -> (r: Self)
        ensures
            r.base_addr() == TIM1_BASE,
    {
        Self::tim1()
    }
}

/// `init_tim1_default`: the TIM1 instance, left as it is.
pub fn init_tim1_default() -> (r: AdvancedTimer)
    ensures
        r.base_addr() == TIM1_BASE,
{
    AdvancedTimer::tim1()
}

/// `init_tim8_default`: the TIM8 instance, left as it is.
pub fn init_tim8_default() -> (r: AdvancedTimer)
    ensures
        r.base_addr() == TIM8_BASE,
{
    AdvancedTimer::tim8()
}

} // verus!
