//! OPAMP - Operational Amplifier
//!
//! The STM32U5 has three operational amplifiers, each usable as a follower
//! or as a programmable gain amplifier (PGA).
use vstd::prelude::*;
use crate::regs::{self, clear_bit, get_field, set_bit, set_field, test_bit};
pub mod reg;

verus! {

broadcast use regs::lemma_low_mask_value;

/// OPAMP1 base address
pub const OPAMP1_BASE: usize = 0x4000_9030;
/// OPAMP2 base address
pub const OPAMP2_BASE: usize = 0x4000_9034;
/// OPAMP3 base address
pub const OPAMP3_BASE: usize = 0x4000_9038;

/// OPAMP mode
#[derive(Clone, Copy, Debug, PartialEq, Eq, Structural)]
pub enum Mode {
    /// Functional mode
    Functional,
    /// Calibration mode
    Calibration,
    /// Test mode
    Test,
}

impl Mode {
    /// The register encoding of this value.
    pub open spec fn value(self) -> u32 {
        match self {
            Mode::Functional => 0b00u32,
            Mode::Calibration => 0b01u32,
            Mode::Test => 0b10u32,
        }
    }

    /// The register encoding of this value.
    pub fn bits(self) -> (r: u32)
        ensures
            r == self.value(),
    {
        match self {
            Mode::Functional => 0b00,
            Mode::Calibration => 0b01,
            Mode::Test => 0b10,
        }
    }
}

/// OPAMP functional mode
#[derive(Clone, Copy, Debug, PartialEq, Eq, Structural)]
pub enum FunctionalMode {
    /// Standalone mode
    Standalone,
    /// Follower mode
    Follower,
    /// PGA mode
    Pga,
}

impl FunctionalMode {
    /// The register encoding of this value.
    pub open spec fn value(self) -> u32 {
        match self {
            FunctionalMode::Standalone => 0b000u32,
            FunctionalMode::Follower => 0b010u32,
            FunctionalMode::Pga => 0b100u32,
        }
    }

    /// The register encoding of this value.
    pub fn bits(self) -> (r: u32)
        ensures
            r == self.value(),
    {
        match self {
            FunctionalMode::Standalone => 0b000,
            FunctionalMode::Follower => 0b010,
            FunctionalMode::Pga => 0b100,
        }
    }
}

/// OPAMP PGA gain
#[derive(Clone, Copy, Debug, PartialEq, Eq, Structural)]
pub enum PgaGain {
    Gain2,
    Gain4,
    Gain8,
    Gain16,
}

impl PgaGain {
    /// The register encoding of this value.
    pub open spec fn value(self) -> u32 {
        match self {
            PgaGain::Gain2 => 0b00u32,
            PgaGain::Gain4 => 0b01u32,
            PgaGain::Gain8 => 0b10u32,
            PgaGain::Gain16 => 0b11u32,
        }
    }

    /// The register encoding of this value.
    pub fn bits(self) -> (r: u32)
        ensures
            r == self.value(),
    {
        match self {
            PgaGain::Gain2 => 0b00,
            PgaGain::Gain4 => 0b01,
            PgaGain::Gain8 => 0b10,
            PgaGain::Gain16 => 0b11,
        }
    }
}

/// OPAMP instance
pub struct Opamp {
    base: usize,
}

impl Opamp {
    /// Base address of this instance's register block.
    pub closed spec fn base_addr(&self) -> usize {
        self.base
    }

    /// Base address of this instance's register block.
    pub fn base(&self) -> (r: usize)
        ensures
            r == self.base_addr(),
    {
        self.base
    }

    pub fn opamp1() -> (r: Self)
        ensures
            r.base_addr() == OPAMP1_BASE,
    {
        Self { base: OPAMP1_BASE }
    }

    pub fn opamp2() -> (r: Self)
        ensures
            r.base_addr() == OPAMP2_BASE,
    {
        Self { base: OPAMP2_BASE }
    }

    pub fn opamp3() -> (r: Self)
        ensures
            r.base_addr() == OPAMP3_BASE,
    {
        Self { base: OPAMP3_BASE }
    }

    /// CSR value of `init_follower`: follower mode at bit 1 and the
    /// amplifier enabled (OPAMPEN, bit 0).
    pub fn init_follower(&self) -> (r: u32)
        ensures
            r == (FunctionalMode::Follower.value() << 1u32) | 1u32,
    {
        (FunctionalMode::Follower.bits() << 1u32) | 1u32
    }

    /// CSR value of `init_pga`: PGA mode at bit 1, the gain at bit 4 and the
    /// amplifier enabled.
    pub fn init_pga(&self, gain: PgaGain) -> (r: u32)
        ensures
            r == (FunctionalMode::Pga.value() << 1u32) | (gain.value() << 4u32) | 1u32,
    {
        (FunctionalMode::Pga.bits() << 1u32) | (gain.bits() << 4u32) | 1u32
    }

    /// CSR with the amplifier enabled (OPAMPEN, bit 0).
    pub fn enable(&self, csr: u32) -> (r: u32)
        ensures
            r == regs::with_bit(csr, 0, true),
    {
        set_bit(csr, 0)
    }

    /// CSR with the amplifier disabled (OPAMPEN, bit 0).
    pub fn disable(&self, csr: u32) -> (r: u32)
        ensures
            r == regs::with_bit(csr, 0, false),
    {
        clear_bit(csr, 0)
    }

    /// The two CSR writes that start `calibrate`: calibration mode requested
    /// (bit 30 set), then the amplifier enabled as well.
    pub fn calibration_start(&self, csr: u32) -> (r: (u32, u32))
        ensures
            r.0 == regs::with_bit(csr, 30, true),
            r.1 == regs::with_bit(r.0, 0, true),
    {
        let a = set_bit(csr, 30);
        (a, set_bit(a, 0))
    }

    /// Whether calibration has completed (bit 14 of CSR), which `calibrate` waits
    /// for.
    pub fn calibration_done(&self, csr: u32) -> (r: bool)
        ensures
            r == regs::bit(csr, 14),
    {
        test_bit(csr, 14)
    }

    /// The writes that end `calibrate`, from CSR as read once calibration has
    /// completed: the trim value (CSR bits 24-28) to OTR, then CSR with the
    /// mode bits (30-31) cleared.
    pub fn calibrate(&self, csr: u32) -> (r: (u32, u32))
        ensures
            r.0 == regs::field(csr, 24, 5),
            r.1 == regs::with_field(csr, 30, 2, 0),
    {
        (get_field(csr, 24, 5), set_field(csr, 30, 2, 0))
    }

    /// Whether the amplifier output is ready (bit 8 of CSR).
    pub fn is_ready(&self, csr: u32) -> (r: bool)
        ensures
            r == regs::bit(csr, 8),
    {
        test_bit(csr, 8)
    }

}

/// CSR value of `init_opamp1_follower` for OPAMP1 (after APB1ENR1 has
/// `rcc::apb1::OPAMP` set): follower mode, enabled.
pub fn init_opamp1_follower() -> (r: u32)
    ensures
        r == (FunctionalMode::Follower.value() << 1u32) | 1u32,
{
    let opamp = Opamp::opamp1();
    opamp.init_follower()
}

/// CSR value of `init_opamp2_pga` for OPAMP2: PGA mode with a gain of 4,
/// enabled.
pub fn init_opamp2_pga() -> (r: u32)
    ensures
        r == (FunctionalMode::Pga.value() << 1u32) | (PgaGain::Gain4.value() << 4u32) | 1u32,
{
    let opamp = Opamp::opamp2();
    opamp.init_pga(PgaGain::Gain4)
}

} // verus!
