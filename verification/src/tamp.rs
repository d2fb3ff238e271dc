//! TAMP - Tamper
//!
//! # Overview
//! STM32U5 Tamper (TAMP) controller provides tamper detection, backup registers,
//! and monotonic counters for security applications.
//!
//! # Features
//! Reference: RM0456 Chapter 64: Tamper and backup registers (TAMP)
//!
//! ## Tamper Detection
//! - 8 tamper inputs with configurable sensitivity
//! - Internal tamper events
//! - Tamper interrupt and reset generation
//!
//! ## Backup Registers
//! - 32 backup registers (32-bit each)
//! - Retained in VBAT mode
//!
//! ## Monotonic Counters
//! - 2 monotonic counters
//! - Increment-only operation
//!
//! ## Advanced Features
//! - Active tamper protection
//! - Internal/external tamper events
//! - Tamper timestamping
//! - Erase backup registers on tamper
//!
//! # Reference
//! - RM0456 Chapter 64: Tamper and backup registers (TAMP)
//! - RM0456 Section 64.1: TAMP introduction
//! - RM0456 Section 64.2: TAMP main features
//! - RM0456 Section 64.3: TAMP functional description
//! - RM0456 Section 64.6: TAMP registers
use vstd::prelude::*;
use crate::regs::{self, RegisterWrite, clear_bit, set_bit, set_field, test_bit};
pub mod reg;

verus! {

broadcast use regs::lemma_low_mask_value;

/// TAMP base address
pub const TAMP_BASE: usize = 0x4200_0400;

/// Tamper input selection
#[derive(Clone, Copy, Debug, PartialEq, Eq, Structural)]
pub enum TamperInput {
    Tamper1,
    Tamper2,
    Tamper3,
    Tamper4,
    Tamper5,
    Tamper6,
    Tamper7,
    Tamper8,
}

impl TamperInput {
    /// The register encoding of this value.
    pub open spec fn value(self) -> u32 {
        match self {
            TamperInput::Tamper1 => 0u32,
            TamperInput::Tamper2 => 1u32,
            TamperInput::Tamper3 => 2u32,
            TamperInput::Tamper4 => 3u32,
            TamperInput::Tamper5 => 4u32,
            TamperInput::Tamper6 => 5u32,
            TamperInput::Tamper7 => 6u32,
            TamperInput::Tamper8 => 7u32,
        }
    }

    /// The register encoding of this value.
    pub fn bits(self) -> (r: u32)
        ensures
            r == self.value(),
    {
        match self {
            TamperInput::Tamper1 => 0,
            TamperInput::Tamper2 => 1,
            TamperInput::Tamper3 => 2,
            TamperInput::Tamper4 => 3,
            TamperInput::Tamper5 => 4,
            TamperInput::Tamper6 => 5,
            TamperInput::Tamper7 => 6,
            TamperInput::Tamper8 => 7,
        }
    }
}

/// Tamper trigger
#[derive(Clone, Copy, Debug, PartialEq, Eq, Structural)]
pub enum TamperTrigger {
    RisingEdge,
    FallingEdge,
    LowLevel,
    HighLevel,
}

impl TamperTrigger {
    /// The register encoding of this value.
    pub open spec fn value(self) -> u32 {
        match self {
            TamperTrigger::RisingEdge => 0u32,
            TamperTrigger::FallingEdge => 1u32,
            TamperTrigger::LowLevel => 2u32,
            TamperTrigger::HighLevel => 3u32,
        }
    }

    /// The register encoding of this value.
    pub fn bits(self) -> (r: u32)
        ensures
            r == self.value(),
    {
        match self {
            TamperTrigger::RisingEdge => 0,
            TamperTrigger::FallingEdge => 1,
            TamperTrigger::LowLevel => 2,
            TamperTrigger::HighLevel => 3,
        }
    }
}

/// TAMP instance
pub struct Tamp;

impl Tamp {
    /// Create TAMP instance
    pub fn new() -> (r: Self) {
        Tamp
    }

    /// The RCC enable register with the TAMP clock enabled: `clock_mask`,
    /// the TAMP enable bit of that register, or-ed in.
    pub fn enable_clock(&self, clock_mask: u32, enr: u32) -> (r: u32)
        ensures
            r == enr | clock_mask,
    {
        enr | clock_mask
    }

    /// The RCC enable register with the TAMP clock (`clock_mask`) disabled.
    pub fn disable_clock(&self, clock_mask: u32, enr: u32) -> (r: u32)
        ensures
            r == enr & !clock_mask,
    {
        enr & !clock_mask
    }

    /// CR1 and CR2 of `enable_tamper`: the input's enable bit (bit `input`)
    /// set in CR1, and its trigger (bits 2 × `input` and up) set in CR2.
    pub fn enable_tamper(&self, input: TamperInput, trigger: TamperTrigger, cr1: u32, cr2: u32) -> (r: (u32, u32))
        ensures
            r.0 == regs::with_bit(cr1, input.value(), true),
            r.1 == regs::with_field(cr2, (2 * input.value()) as u32, 2, trigger.value()),
            regs::field(r.1, (2 * input.value()) as u32, 2) == trigger.value(),
    {
        let i = input.bits();
        proof {
            regs::lemma_with_field(cr2, (2 * input.value()) as u32, 2, trigger.value());
        }
        (set_bit(cr1, i), set_field(cr2, 2 * i, 2, trigger.bits()))
    }

    /// CR1 with the input's enable bit cleared.
    pub fn disable_tamper(&self, input: TamperInput, cr1: u32) -> (r: u32)
        ensures
            r == regs::with_bit(cr1, input.value(), false),
    {
        clear_bit(cr1, input.bits())
    }

    /// Whether SR flags a tamper event on the input (bit `input`).
    pub fn is_tamper_detected(&self, input: TamperInput, sr: u32) -> (r: bool)
        ensures
            r == regs::bit(sr, input.value()),
    {
        test_bit(sr, input.bits())
    }

    /// SCR word of `clear_tamper_flag`: the input's bit.
    pub fn clear_tamper_flag(&self, input: TamperInput) -> (r: u32)
        ensures
            r == 1u32 << input.value(),
    {
        1u32 << input.bits()
    }

    /// Offset from `TAMP_BASE` of backup register `index`, the one
    /// `read_backup` reads.
    pub fn read_backup(&self, index: u8) -> (r: usize)
        requires
            index < 32,
        ensures
            r == reg::BKP0R + 4 * index,
    {
        reg::BKP0R + index as usize * 4
    }

    /// The write of `write_backup`: `value` to backup register `index`.
    pub fn write_backup(&self, index: u8, value: u32) -> (r: RegisterWrite)
        requires
            index < 32,
        ensures
            r == (RegisterWrite { offset: (reg::BKP0R + 4 * index) as usize, value }),
    {
        RegisterWrite { offset: reg::BKP0R + index as usize * 4, value }
    }

    /// CR1 with the monotonic counter 1 increment requested (bit 15).
    pub fn increment_counter1(&self, cr1: u32) -> (r: u32)
        ensures
            r == regs::with_bit(cr1, 15, true),
    {
        set_bit(cr1, 15)
    }

    /// CR1 with the monotonic counter 2 increment requested (bit 16).
    pub fn increment_counter2(&self, cr1: u32) -> (r: u32)
        ensures
            r == regs::with_bit(cr1, 16, true),
    {
        set_bit(cr1, 16)
    }

}

/// `init_tamp_default`: the RCC enable register with the TAMP clock
/// (`clock_mask`) enabled.
pub fn init_tamp_default(clock_mask: u32, enr: u32) -> (r: u32)
    ensures
        r == enr | clock_mask,
{
    let tamp = Tamp::new();
    tamp.enable_clock(clock_mask, enr)
}

} // verus!
