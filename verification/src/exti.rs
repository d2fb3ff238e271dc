//! EXTI - External Interrupt/Event Controller
//!
//! # Overview
//! STM32U5 Extended Interrupt and Event Controller (EXTI) manages external interrupts
//! and events with up to 22 configurable interrupt/event lines.
//!
//! # Features
//! Reference: RM0456 Chapter 23: Extended interrupt and event controller (EXTI)
//!
//! ## Interrupt Lines
//! - Up to 22 external interrupt/event lines
//!
//! ## Trigger Modes
//! - Rising edge trigger
//! - Falling edge trigger
//! - Both edges trigger
//!
//! ## Advanced Features
//! - Software trigger support
//! - Independent configuration per line
//! - Masking capability
//!
//! # Reference
//! - RM0456 Chapter 23: Extended interrupt and event controller (EXTI)
//! - RM0456 Section 23.1: EXTI introduction
//! - RM0456 Section 23.2: EXTI main features
//! - RM0456 Section 23.3: EXTI functional description
//! - RM0456 Section 23.4: EXTI registers
use vstd::prelude::*;
use crate::regs::{self, clear_bit, set_bit, set_field, test_bit};
pub mod reg;

verus! {

broadcast use regs::lemma_low_mask_value;

/// EXTI base address
pub const EXTI_BASE: usize = 0x4002_1800;

/// Trigger mode
#[derive(Clone, Copy, Debug, PartialEq, Eq, Structural)]
pub enum TriggerMode {
    /// Rising edge trigger
    Rising,
    /// Falling edge trigger
    Falling,
    /// Both rising and falling edge trigger
    Both,
}

impl TriggerMode {
    /// The register encoding of this value.
    pub open spec fn value(self) -> u32 {
        match self {
            TriggerMode::Rising => 0b01u32,
            TriggerMode::Falling => 0b10u32,
            TriggerMode::Both => 0b11u32,
        }
    }

    /// The register encoding of this value.
    pub fn bits(self) -> (r: u32)
        ensures
            r == self.value(),
    {
        match self {
            TriggerMode::Rising => 0b01,
            TriggerMode::Falling => 0b10,
            TriggerMode::Both => 0b11,
        }
    }
}

/// EXTI line
#[derive(Clone, Copy, Debug, PartialEq, Eq, Structural)]
pub enum Line {
    /// EXTI line 0
    Line0,
    /// EXTI line 1
    Line1,
    /// EXTI line 2
    Line2,
    /// EXTI line 3
    Line3,
    /// EXTI line 4
    Line4,
    /// EXTI line 5
    Line5,
    /// EXTI line 6
    Line6,
    /// EXTI line 7
    Line7,
    /// EXTI line 8
    Line8,
    /// EXTI line 9
    Line9,
    /// EXTI line 10
    Line10,
    /// EXTI line 11
    Line11,
    /// EXTI line 12
    Line12,
    /// EXTI line 13
    Line13,
    /// EXTI line 14
    Line14,
    /// EXTI line 15
    Line15,
}

impl Line {
    /// The register encoding of this value.
    pub open spec fn value(self) -> u32 {
        match self {
            Line::Line0 => 0u32,
            Line::Line1 => 1u32,
            Line::Line2 => 2u32,
            Line::Line3 => 3u32,
            Line::Line4 => 4u32,
            Line::Line5 => 5u32,
            Line::Line6 => 6u32,
            Line::Line7 => 7u32,
            Line::Line8 => 8u32,
            Line::Line9 => 9u32,
            Line::Line10 => 10u32,
            Line::Line11 => 11u32,
            Line::Line12 => 12u32,
            Line::Line13 => 13u32,
            Line::Line14 => 14u32,
            Line::Line15 => 15u32,
        }
    }

    /// The register encoding of this value.
    pub fn bits(self) -> (r: u32)
        ensures
            r == self.value(),
    {
        match self {
            Line::Line0 => 0,
            Line::Line1 => 1,
            Line::Line2 => 2,
            Line::Line3 => 3,
            Line::Line4 => 4,
            Line::Line5 => 5,
            Line::Line6 => 6,
            Line::Line7 => 7,
            Line::Line8 => 8,
            Line::Line9 => 9,
            Line::Line10 => 10,
            Line::Line11 => 11,
            Line::Line12 => 12,
            Line::Line13 => 13,
            Line::Line14 => 14,
            Line::Line15 => 15,
        }
    }
}

/// Port selection for EXTI
#[derive(Clone, Copy, Debug, PartialEq, Eq, Structural)]
pub enum Port {
    /// Port A
    PA,
    /// Port B
    PB,
    /// Port C
    PC,
    /// Port D
    PD,
    /// Port E
    PE,
    /// Port F
    PF,
    /// Port G
    PG,
    /// Port H
    PH,
}

impl Port {
    /// The register encoding of this value.
    pub open spec fn value(self) -> u32 {
        match self {
            Port::PA => 0u32,
            Port::PB => 1u32,
            Port::PC => 2u32,
            Port::PD => 3u32,
            Port::PE => 4u32,
            Port::PF => 5u32,
            Port::PG => 6u32,
            Port::PH => 7u32,
        }
    }

    /// The register encoding of this value.
    pub fn bits(self) -> (r: u32)
        ensures
            r == self.value(),
    {
        match self {
            Port::PA => 0,
            Port::PB => 1,
            Port::PC => 2,
            Port::PD => 3,
            Port::PE => 4,
            Port::PF => 5,
            Port::PG => 6,
            Port::PH => 7,
        }
    }
}

/// EXTI instance
pub struct Exti;

impl Exti {
    /// Create EXTI instance
    pub fn new() -> (r: Self) {
        Exti
    }

    /// IMR1 with the line unmasked for interrupts.
    pub fn enable_interrupt(&self, line: Line, imr: u32) -> (r: u32)
        ensures
            r == regs::with_bit(imr, line.value(), true),
    {
        set_bit(imr, line.bits())
    }

    /// IMR1 with the line masked for interrupts.
    pub fn disable_interrupt(&self, line: Line, imr: u32) -> (r: u32)
        ensures
            r == regs::with_bit(imr, line.value(), false),
    {
        clear_bit(imr, line.bits())
    }

    /// EMR1 with the line unmasked for events.
    pub fn enable_event(&self, line: Line, emr: u32) -> (r: u32)
        ensures
            r == regs::with_bit(emr, line.value(), true),
    {
        set_bit(emr, line.bits())
    }

    /// EMR1 with the line masked for events.
    pub fn disable_event(&self, line: Line, emr: u32) -> (r: u32)
        ensures
            r == regs::with_bit(emr, line.value(), false),
    {
        clear_bit(emr, line.bits())
    }

    /// SWIER1 with the software interrupt of the line requested.
    pub fn software_interrupt(&self, line: Line, swier: u32) -> (r: u32)
        ensures
            r == regs::with_bit(swier, line.value(), true),
    {
        set_bit(swier, line.bits())
    }

    /// The new RTSR1 and FTSR1 of `set_trigger`: the line's rising-edge bit
    /// set exactly when the mode includes rising edges, its falling-edge bit
    /// set exactly when the mode includes falling edges; every other bit of
    /// both registers unchanged.
    pub fn set_trigger(&self, line: Line, mode: TriggerMode, rtsr: u32, ftsr: u32) -> (r: (u32, u32))
        ensures
            r.0 == regs::with_bit(rtsr, line.value(), mode == TriggerMode::Rising || mode == TriggerMode::Both),
            r.1 == regs::with_bit(ftsr, line.value(), mode == TriggerMode::Falling || mode == TriggerMode::Both),
    {
        let rising = match mode {
            TriggerMode::Rising | TriggerMode::Both => true,
            TriggerMode::Falling => false,
        };
        let falling = match mode {
            TriggerMode::Falling | TriggerMode::Both => true,
            TriggerMode::Rising => false,
        };
        let new_rtsr = if rising { set_bit(rtsr, line.bits()) } else { clear_bit(rtsr, line.bits()) };
        let new_ftsr = if falling { set_bit(ftsr, line.bits()) } else { clear_bit(ftsr, line.bits()) };
        (new_rtsr, new_ftsr)
    }

    /// Offset of the external-interrupt selection register of the line:
    /// EXTICR1 for lines 0-3, the next register every four lines.
    pub fn gpio_select_register(&self, line: Line) -> (r: usize)
        ensures
            r == reg::EXTICR1 + (line.value() / 4) * 4,
    {
        reg::EXTICR1 + (line.bits() as usize / 4) * 4
    }

    /// EXTICR (the register `gpio_select_register` names) with the line's
    /// 4-bit field (at bit `4 * (line % 4)`) selecting `port`.
    pub fn configure_gpio(&self, line: Line, port: Port, exticr: u32) -> (r: u32)
        ensures
            r == regs::with_field(exticr, (4 * (line.value() % 4)) as u32, 4, port.value()),
            regs::field(r, (4 * (line.value() % 4)) as u32, 4) == port.value(),
    {
        proof {
            regs::lemma_with_field(exticr, (4 * (line.value() % 4)) as u32, 4, port.value());
        }
        set_field(exticr, (line.bits() % 4) * 4, 4, port.bits())
    }

    /// Whether RPR1 has a rising-edge event pending on the line.
    pub fn get_pending(&self, line: Line, rpr: u32) -> (r: bool)
        ensures
            r == regs::bit(rpr, line.value()),
    {
        test_bit(rpr, line.bits())
    }

    /// RPR1 word of `clear_pending`: the line's bit (write one to clear).
    pub fn clear_pending(&self, line: Line) -> (r: u32)
        ensures
            r == 1u32 << line.value(),
    {
        1u32 << line.bits()
    }

}

/// `init` only creates the controller handle; it writes nothing.
pub fn init() -> (r: Exti) {
    Exti::new()
}

} // verus!
