//! I3C - Improved Inter-Integrated Circuit
//!
//! # Overview
//! STM32U5 Improved Inter-Integrated Circuit (I3C) provides high-speed communication
//! with support for I3C master mode and I2C compatible mode.
//!
//! # Features
//! Reference: RM0456 Chapter 61: Improved inter-integrated circuit (I3C)
//!
//! ## Operating Modes
//! - I3C Master mode
//! - I2C compatible mode
//!
//! ## Transfer Speed
//! - Standard mode: 12.5 MHz
//! - High Speed: 8 Mbps
//! - Ultra-fast: 12.5 MHz
//!
//! ## Advanced Features
//! - In-Band Interrupt (IBI)
//! - Master Request (MR)
//! - DMA support
//! - Hot-Join support
//!
//! # Reference
//! - RM0456 Chapter 61: Improved inter-integrated circuit (I3C)
//! - RM0456 Section 61.1: I3C introduction
//! - RM0456 Section 61.2: I3C main features
//! - RM0456 Section 61.3: I3C functional description
//! - RM0456 Section 61.4: I3C registers
use vstd::prelude::*;
use crate::regs::{self, RegisterWrite, set_bit};
pub mod reg;
pub mod ccc;

verus! {

broadcast use regs::lemma_low_mask_value;

/// I3C1 base address
pub const I3C1_BASE: usize = 0x4000_6000;

/// I3C speed modes
#[derive(Clone, Copy, Debug, PartialEq, Eq, Structural)]
pub enum SpeedMode {
    /// Standard mode (I2C compatible, 100 kHz)
    Standard,
    /// Fast mode (I2C compatible, 400 kHz)
    Fast,
    /// Fast mode plus (I2C compatible, 1 MHz)
    FastPlus,
    /// High Speed mode (I3C, 8 Mbps)
    HighSpeed,
}

impl SpeedMode {
    /// The register encoding of this value.
    pub open spec fn value(self) -> u32 {
        match self {
            SpeedMode::Standard => 0u32,
            SpeedMode::Fast => 1u32,
            SpeedMode::FastPlus => 2u32,
            SpeedMode::HighSpeed => 3u32,
        }
    }

    /// The register encoding of this value.
    pub fn bits(self) -> (r: u32)
        ensures
            r == self.value(),
    {
        match self {
            SpeedMode::Standard => 0,
            SpeedMode::Fast => 1,
            SpeedMode::FastPlus => 2,
            SpeedMode::HighSpeed => 3,
        }
    }
}

/// I3C command type
#[derive(Clone, Copy, Debug, PartialEq, Eq, Structural)]
pub enum CommandType {
    /// Address + Write
    Write,
    /// Address + Read
    Read,
    /// I3C CCC (Common Command Code)
    CCC,
}

impl CommandType {
    /// The register encoding of this value.
    pub open spec fn value(self) -> u32 {
        match self {
            CommandType::Write => 0u32,
            CommandType::Read => 1u32,
            CommandType::CCC => 2u32,
        }
    }

    /// The register encoding of this value.
    pub fn bits(self) -> (r: u32)
        ensures
            r == self.value(),
    {
        match self {
            CommandType::Write => 0,
            CommandType::Read => 1,
            CommandType::CCC => 2,
        }
    }
}

/// I3C instance
pub struct I3c {
    base: usize,
}

impl I3c {
    /// Base address of this instance's register block.
    pub closed spec fn base_addr(&self) -> usize {
        self.base
    }

    /// Base address of this instance's register block.
    pub fn base(&self) -> (r: usize)
        ensures
            r == self.base_addr(),
    {
        self.base
    }

    /// Create I3C1 instance
    pub fn i3c1() -> (r: Self)
        ensures
            r.base_addr() == I3C1_BASE,
    {
        Self { base: I3C1_BASE }
    }

    /// APB1ENR2 with the I3C1 clock enabled (bit 2), the first step of `init`.
    pub fn enable_clock(&self, apb1enr2: u32) -> (r: u32)
        ensures
            r == regs::with_bit(apb1enr2, 2, true),
    {
        set_bit(apb1enr2, 2)
    }

    /// Timing parameters (prescaler, SCL low, SCL high, SDA delay) of a speed
    /// mode.
    pub open spec fn timing_params(speed: SpeedMode) -> (u32, u32, u32, u32) {
        match speed {
            SpeedMode::Standard => (15, 50, 50, 20),
            SpeedMode::Fast => (7, 25, 25, 10),
            SpeedMode::FastPlus => (3, 12, 12, 5),
            SpeedMode::HighSpeed => (0, 4, 4, 2),
        }
    }

    /// TIMINGR1 value for a speed mode: prescaler at bit 28, SCL low at bit
    /// 20, SDA delay at bit 12, SCL high at bit 4.
    pub open spec fn timingr1_value(speed: SpeedMode) -> u32 {
        let (p, lo, hi, d) = Self::timing_params(speed);
        (p << 28) | (lo << 20) | (d << 12) | (hi << 4)
    }

    /// The writes of `init` after enabling the clock: CR cleared, TIMINGR1 for
    /// the speed, then CR enabled.
    pub fn init(&self, speed: SpeedMode, pclk_freq: u32) -> (r: [RegisterWrite; 3])
        ensures
            r[0] == (RegisterWrite { offset: reg::CR, value: 0 }),
            r[1] == (RegisterWrite { offset: reg::TIMINGR1, value: Self::timingr1_value(speed) }),
            r[2] == (RegisterWrite { offset: reg::CR, value: 1 }),
    {
        let (p, lo, hi, d): (u32, u32, u32, u32) = match speed {
            SpeedMode::Standard => (15, 50, 50, 20),
            SpeedMode::Fast => (7, 25, 25, 10),
            SpeedMode::FastPlus => (3, 12, 12, 5),
            SpeedMode::HighSpeed => (0, 4, 4, 2),
        };
        [
            RegisterWrite { offset: reg::CR, value: 0 },
            RegisterWrite { offset: reg::TIMINGR1, value: (p << 28) | (lo << 20) | (d << 12) | (hi << 4) },
            RegisterWrite { offset: reg::CR, value: 1 },
        ]
    }

    /// The bytes of a transfer as TXDR words.
    fn tx_words(data: &[u8]) -> (r: Vec<u32>)
        ensures
            r@.len() == data@.len(),
            forall|i: int| 0 <= i < data@.len() ==> #[trigger] r@[i] == data@[i] as u32,
    {
        let mut tx: Vec<u32> = Vec::new();
        let mut i: usize = 0;
        while i < data.len()
            invariant
                i <= data@.len(),
                tx@.len() == i,
                forall|k: int| 0 <= k < i ==> #[trigger] tx@[k] == data@[k] as u32,
            decreases data@.len() - i,
        {
            tx.push(data[i] as u32);
            i = i + 1;
        }
        tx
    }

    /// The words of `send_ccc`: the ADDR_CMD word (command code at bit 16, CCC
    /// flag at bit 8, and "no data" at bit 14 when there is no data), then the
    /// data bytes for TXDR, if any.
    pub fn send_ccc(&self, ccc_cmd: u8, data: Option<&[u8]>) -> (r: (u32, Vec<u32>))
        ensures
            r.0 == ((ccc_cmd as u32) << 16) | (1u32 << 8) | (if data is Some { 0u32 << 14 } else { 1u32 << 14 }),
            data is None ==> r.1@.len() == 0,
            data is Some ==> r.1@.len() == data->0@.len() && forall|i: int| 0 <= i < r.1@.len() ==> #[trigger] r.1@[i] == data->0@[i] as u32,
    {
        let nodata: u32 = if data.is_some() { 0u32 << 14 } else { 1u32 << 14 };
        let word = ((ccc_cmd as u32) << 16) | (1u32 << 8) | nodata;
        match data {
            Some(d) => (word, Self::tx_words(d)),
            None => (word, Vec::new()),
        }
    }

    /// The words of `write`: the ADDR_CMD word (the address at bit 1 within
    /// bits 1-7, a write, the byte count at bit 16), then the data bytes for
    /// TXDR.
    pub fn write(&self, address: u8, data: &[u8]) -> (r: (u32, Vec<u32>))
        ensures
            r.0 == ((((address as u32) << 1) & 0xFEu32) | (0u32 << 14)) | ((data@.len() as u32) << 16),
            r.1@.len() == data@.len(),
            forall|i: int| 0 <= i < data@.len() ==> #[trigger] r.1@[i] == data@[i] as u32,
    {
        let word = ((((address as u32) << 1) & 0xFE) | (0u32 << 14)) | ((data.len() as u32) << 16);
        (word, Self::tx_words(data))
    }

    /// The ADDR_CMD word of `read` for `len` bytes: the address at bit 1
    /// within bits 1-7, a read (bit 14) and the byte count at bit 16.
    pub fn read(&self, address: u8, len: usize) -> (r: u32)
        ensures
            r == ((((address as u32) << 1) & 0xFEu32) | (1u32 << 14)) | ((len as u32) << 16),
    {
        ((((address as u32) << 1) & 0xFE) | (1u32 << 14)) | ((len as u32) << 16)
    }

    /// IER with the interrupts of `interrupt` enabled as well.
    pub fn enable_interrupt(&self, interrupt: u32, ier: u32) -> (r: u32)
        ensures
            r == ier | interrupt,
    {
        ier | interrupt
    }

    /// ICR word of `clear_interrupt`.
    pub fn clear_interrupt(&self, flags: u32) -> (r: u32)
        ensures
            r == flags,
    {
        flags
    }

}

/// The writes of `init_i3c1_default` on I3C1 (after its clock is enabled):
/// `init` at high speed.
pub fn init_i3c1_default(pclk_freq: u32) -> (r: [RegisterWrite; 3])
    ensures
        r[0] == (RegisterWrite { offset: reg::CR, value: 0 }),
        r[1] == (RegisterWrite { offset: reg::TIMINGR1, value: I3c::timingr1_value(SpeedMode::HighSpeed) }),
        r[2] == (RegisterWrite { offset: reg::CR, value: 1 }),
{
    let i3c = I3c::i3c1();
    i3c.init(SpeedMode::HighSpeed, pclk_freq)
}

} // verus!
