//! DLYB - Delay Block
//!
//! The delay block adds a tunable delay to a sampling clock (for SDMMC
//! and HSPI) and measures, through its length-sampling mode, how many delay
//! cells make up one input clock period.
//!
//! ## Reference
//! - RM0456 Reference Manual, Chapter 32: Delay block (DLYB)
//! - RM0456 Section 32.1: DLYB introduction
//! - RM0456 Section 32.2: DLYB main features
//! - RM0456 Section 32.3: DLYB functional description
//! - RM0456 Section 32.4: DLYB registers
use vstd::prelude::*;
use crate::regs::{self, RegisterWrite, clear_bit, set_bit, set_field, test_bit};
pub mod reg;
pub mod cr_bits;

verus! {

broadcast use regs::lemma_low_mask_value;

/// DLYB1 base address
pub const DLYB1_BASE: usize = 0x4201_6400;
/// DLYB2 base address
pub const DLYB2_BASE: usize = 0x4201_6800;

/// DLYB error
#[derive(Clone, Copy, Debug, PartialEq, Eq, Structural)]
pub enum DlybError {
    CalibrationFailed,
}

/// DLYB instance
pub struct Dlyb {
    base: usize,
}

/// What the calibration of `calibrate` does next.
#[derive(Clone, Copy, Debug)]
pub enum CalibrationStep {
    /// Try this delay length (see `try_length_steps`), then read whether the
    /// line locked.
    Try(u8),
    /// The calibration is over: the calibrated length, or the failure.
    Done(Result<u8, DlybError>),
}

impl Dlyb {
    /// An instance is DLYB1 or DLYB2.
    #[verifier::type_invariant]
    spec fn inv(self) -> bool {
        self.base == DLYB1_BASE || self.base == DLYB2_BASE
    }

    /// Base address of this instance's register block.
    pub closed spec fn base_addr(&self) -> usize {
        self.base
    }

    /// Base address of this instance's register block.
    pub fn base(&self) -> (r: usize)
        ensures
            r == self.base_addr(),
    {
        self.base
    }

    /// Create DLYB1 instance
    pub fn dlyb1() -> (r: Self)
        ensures
            r.base_addr() == DLYB1_BASE,
    {
        Self { base: DLYB1_BASE }
    }

    /// Create DLYB2 instance
    pub fn dlyb2() -> (r: Self)
        ensures
            r.base_addr() == DLYB2_BASE,
    {
        Self { base: DLYB2_BASE }
    }

    /// CR with the delay block enabled (DEN, bit 0).
    pub fn enable(&self, cr: u32) -> (r: u32)
        ensures
            r == regs::with_bit(cr, 0, true),
    {
        set_bit(cr, 0)
    }

    /// CR with the delay block disabled.
    pub fn disable(&self, cr: u32) -> (r: u32)
        ensures
            r == regs::with_bit(cr, 0, false),
    {
        clear_bit(cr, 0)
    }

    /// CR with the sampler enabled (SEN, bit 1).
    pub fn enable_bypass(&self, cr: u32) -> (r: u32)
        ensures
            r == regs::with_bit(cr, 1, true),
    {
        set_bit(cr, 1)
    }

    /// CR with the sampler disabled.
    pub fn disable_bypass(&self, cr: u32) -> (r: u32)
        ensures
            r == regs::with_bit(cr, 1, false),
    {
        clear_bit(cr, 1)
    }

    /// CFGR with the unit delay length (bits 0-4) set to the low 5 bits of
    /// `length`.
    pub fn set_delay_length(&self, length: u8, cfgr: u32) -> (r: u32)
        ensures
            r == regs::with_field(cfgr, 0, 5, (length & 0x1F) as u32),
    {
        set_field(cfgr, 0, 5, (length & 0x1F) as u32)
    }

    /// The unit delay length held in CFGR (bits 0-4).
    pub fn get_delay_length(&self, cfgr: u32) -> (r: u8)
        ensures
            r == (cfgr & 0x1Fu32) as u8,
    {
        (cfgr & 0x1F) as u8
    }

    /// CFGR with the length sampling started (bit 8), the step `calibrate`
    /// takes after setting each candidate length.
    pub fn start_length_sampling(&self, cfgr: u32) -> (r: u32)
        ensures
            r == regs::with_bit(cfgr, 8, true),
    {
        set_bit(cfgr, 8)
    }

    /// Whether CFGR reports the delay line locked (LNGF, bit 9).
    pub fn is_locked(&self, cfgr: u32) -> (r: bool)
        ensures
            r == regs::bit(cfgr, 9),
    {
        test_bit(cfgr, 9)
    }

    /// Outcome of `calibrate`: `locked[i]` is whether the delay line reported
    /// a lock after trying length `i + 1` (lengths 1 to 31 are tried in
    /// order, stopping at the first lock). The calibrated length is the first
    /// that locked; if none did, calibration fails.
    pub fn calibrate(&self, locked: &[bool]) -> (r: Result<u8, DlybError>)
        requires
            locked@.len() <= 31,
        ensures
            match r {
                Ok(len) => 1 <= len <= locked@.len() && locked@[len - 1] && forall|i: int| 0 <= i < len - 1 ==> !locked@[i],
                Err(e) => e == DlybError::CalibrationFailed && forall|i: int| 0 <= i < locked@.len() ==> !locked@[i],
            },
    {
        let mut i: usize = 0;
        while i < locked.len()
            invariant
                i <= locked@.len(),
                locked@.len() <= 31,
                forall|k: int| 0 <= k < i ==> !locked@[k],
            decreases locked@.len() - i,
        {
            if locked[i] {
                return Ok((i + 1) as u8);
            }
            i = i + 1;
        }
        Err(DlybError::CalibrationFailed)
    }

    /// The calibration's next step once length `tried` has been tried and
    /// the line reported `locked` (`tried` is 0 before the first try, and
    /// `locked` then plays no part): lengths are tried in increasing order
    /// from 1; the first that locks is the result, and no length is tried
    /// after it; if length 31 does not lock either, calibration fails.
    pub fn calibration_step(&self, tried: u8, locked: bool) -> (r: CalibrationStep)
        requires
            tried <= 31,
        ensures
            tried == 0 ==> r == CalibrationStep::Try(1),
            tried > 0 && locked ==> r == CalibrationStep::Done(Ok(tried)),
            0 < tried < 31 && !locked ==> r == CalibrationStep::Try((tried + 1) as u8),
            tried == 31 && !locked ==> r == CalibrationStep::Done(Err(DlybError::CalibrationFailed)),
    {
        if tried == 0 {
            CalibrationStep::Try(1)
        } else if locked {
            CalibrationStep::Done(Ok(tried))
        } else if tried < 31 {
            CalibrationStep::Try(tried + 1)
        } else {
            CalibrationStep::Done(Err(DlybError::CalibrationFailed))
        }
    }

    /// The steps that try delay length `length`: CFGR's length field (bits
    /// 0-4) set to it, the sampler enable (SEN, bit 8) set, then 10000 idle
    /// cycles before LNGF (`is_locked`) is read.
    pub fn try_length_steps(&self, length: u8) -> (r: Vec<regs::Step>)
        ensures
            r@ == seq![
                regs::Step::SetField { addr: (self.base_addr() + reg::CFGR) as usize, pos: 0, width: 5, value: (length & 0x1F) as u32 },
                regs::Step::SetField { addr: (self.base_addr() + reg::CFGR) as usize, pos: 8, width: 1, value: 1 },
                regs::Step::Pause { cycles: 10000 },
            ],
            forall|i: int| 0 <= i < r@.len() ==> (#[trigger] r@[i]).well_formed(),
    {
        proof {
            use_type_invariant(self);
        }
        let cfgr = self.base + reg::CFGR;
        let r = vec![
            regs::Step::SetField { addr: cfgr, pos: 0, width: 5, value: (length & 0x1F) as u32 },
            regs::Step::SetField { addr: cfgr, pos: 8, width: 1, value: 1 },
            regs::Step::Pause { cycles: 10000 },
        ];
        assert(r@ =~= seq![
            regs::Step::SetField { addr: (self.base_addr() + reg::CFGR) as usize, pos: 0, width: 5, value: (length & 0x1F) as u32 },
            regs::Step::SetField { addr: (self.base_addr() + reg::CFGR) as usize, pos: 8, width: 1, value: 1 },
            regs::Step::Pause { cycles: 10000 },
        ]);
        r
    }

    /// `init_optimal`, given the lock results of the calibration run (see
    /// `calibrate`): if calibration fails, its error and nothing written, so
    /// the delay line stays disabled; otherwise the writes of CFGR with the
    /// calibrated length, then CR enabled (DEN, bit 0).
    pub fn init_optimal(&self, locked: &[bool], cfgr: u32, cr: u32) -> (r: Result<[RegisterWrite; 2], DlybError>)
        requires
            locked@.len() <= 31,
        ensures
            match r {
                Ok(w) => exists|len: int|
                    #![trigger locked@[len - 1]]
                    1 <= len <= locked@.len() && locked@[len - 1] && (forall|i: int| 0 <= i < len - 1 ==> !locked@[i])
                        && w[0] == (RegisterWrite { offset: reg::CFGR, value: regs::with_field(cfgr, 0, 5, len as u32) })
                        && w[1] == (RegisterWrite { offset: reg::CR, value: regs::with_bit(cr, 0, true) }),
                Err(e) => e == DlybError::CalibrationFailed && forall|i: int| 0 <= i < locked@.len() ==> !locked@[i],
            },
    {
        match self.calibrate(locked) {
            Ok(length) => {
                let w = [
                    RegisterWrite { offset: reg::CFGR, value: self.set_delay_length(length, cfgr) },
                    RegisterWrite { offset: reg::CR, value: self.enable(cr) },
                ];
                assert((length & 0x1F) == length) by (bit_vector)
                    requires
                        1 <= length <= 31,
                ;
                assert(locked@[length - 1]);
                Ok(w)
            },
            Err(e) => Err(e),
        }
    }

}

/// The writes of `init_dlyb1` on DLYB1: CFGR with delay length 16, then CR
/// enabled.
pub fn init_dlyb1(cfgr: u32, cr: u32) -> (r: [RegisterWrite; 2])
    ensures
        r[0] == (RegisterWrite { offset: reg::CFGR, value: regs::with_field(cfgr, 0, 5, (16u8 & 0x1Fu8) as u32) }),
        r[1] == (RegisterWrite { offset: reg::CR, value: regs::with_bit(cr, 0, true) }),
{
    let dlyb = Dlyb::dlyb1();
    [
        RegisterWrite { offset: reg::CFGR, value: dlyb.set_delay_length(16, cfgr) },
        RegisterWrite { offset: reg::CR, value: dlyb.enable(cr) },
    ]
}

/// The writes of `init_dlyb2` on DLYB2: CFGR with delay length 16, then CR
/// enabled.
pub fn init_dlyb2(cfgr: u32, cr: u32) -> (r: [RegisterWrite; 2])
    ensures
        r[0] == (RegisterWrite { offset: reg::CFGR, value: regs::with_field(cfgr, 0, 5, (16u8 & 0x1Fu8) as u32) }),
        r[1] == (RegisterWrite { offset: reg::CR, value: regs::with_bit(cr, 0, true) }),
{
    let dlyb = Dlyb::dlyb2();
    [
        RegisterWrite { offset: reg::CFGR, value: dlyb.set_delay_length(16, cfgr) },
        RegisterWrite { offset: reg::CR, value: dlyb.enable(cr) },
    ]
}

} // verus!
