//! HSPI - HyperBus Serial Peripheral Interface
//!
//! ## Features
//! Data Line Modes:
//! - HyperBus (8 lines)
//! - Octal SPI (8 lines)
//! - Quad SPI (4 lines)
//! - Dual SPI (2 lines)
//! - Standard SPI (1 line)
//!
//! Supported Devices:
//! - HyperFlash
//! - HyperRAM
//! - Octal NOR Flash
//! - Octal PSRAM
//!
//! Other features:
//! - Memory-mapped mode
//! - XIP (Execute In Place)
//! - Up to 200 MB/s
//! - DMA transfers
//! - Delay-locked loop (DLL)
//!
//! ## Reference
//! - RM0456 Reference Manual, Chapter 30: HyperBus interface (HSPI)
use vstd::prelude::*;
use crate::regs::{self, RegisterWrite, clear_bit, set_bit, test_bit};
pub mod reg;
pub mod cr_bits;
pub mod sr_bits;
pub mod dcr1_bits;
pub mod dcr2_bits;
pub mod ccr_bits;
pub mod hlcr_bits;

verus! {

broadcast use regs::lemma_low_mask_value;

/// HSPI1 base address
pub const HSPI1_BASE: usize = 0x4202_0000;

/// HSPI mode
#[derive(Clone, Copy, Debug, PartialEq, Eq, Structural)]
pub enum Mode {
    /// Indirect write mode
    IndirectWrite,
    /// Indirect read mode
    IndirectRead,
    /// Status polling mode
    StatusPoll,
    /// Memory-mapped mode
    MemoryMapped,
}

impl Mode {
    /// The register encoding of this value.
    pub open spec fn value(self) -> u32 {
        match self {
            Mode::IndirectWrite => 0u32,
            Mode::IndirectRead => 1u32,
            Mode::StatusPoll => 2u32,
            Mode::MemoryMapped => 3u32,
        }
    }

    /// The register encoding of this value.
    pub fn bits(self) -> (r: u32)
        ensures
            r == self.value(),
    {
        match self {
            Mode::IndirectWrite => 0,
            Mode::IndirectRead => 1,
            Mode::StatusPoll => 2,
            Mode::MemoryMapped => 3,
        }
    }
}

/// HSPI data line mode
#[derive(Clone, Copy, Debug, PartialEq, Eq, Structural)]
pub enum DataLines {
    /// Single data line (1-1-1)
    Single,
    /// Dual data lines (1-1-2)
    Dual,
    /// Quad data lines (1-1-4)
    Quad,
    /// Octal data lines (1-1-8)
    Octal,
}

impl DataLines {
    /// The register encoding of this value.
    pub open spec fn value(self) -> u32 {
        match self {
            DataLines::Single => 0u32,
            DataLines::Dual => 1u32,
            DataLines::Quad => 2u32,
            DataLines::Octal => 3u32,
        }
    }

    /// The register encoding of this value.
    pub fn bits(self) -> (r: u32)
        ensures
            r == self.value(),
    {
        match self {
            DataLines::Single => 0,
            DataLines::Dual => 1,
            DataLines::Quad => 2,
            DataLines::Octal => 3,
        }
    }
}

/// HSPI clock mode
#[derive(Clone, Copy, Debug, PartialEq, Eq, Structural)]
pub enum ClockMode {
    /// Clock mode 0: CLK low when idle
    Mode0,
    /// Clock mode 3: CLK high when idle
    Mode3,
}

impl ClockMode {
    /// The register encoding of this value.
    pub open spec fn value(self) -> u32 {
        match self {
            ClockMode::Mode0 => 0u32,
            ClockMode::Mode3 => 1u32,
        }
    }

    /// The register encoding of this value.
    pub fn bits(self) -> (r: u32)
        ensures
            r == self.value(),
    {
        match self {
            ClockMode::Mode0 => 0,
            ClockMode::Mode3 => 1,
        }
    }
}

/// HSPI device type
#[derive(Clone, Copy, Debug, PartialEq, Eq, Structural)]
pub enum DeviceType {
    /// HyperBus
    HyperBus,
    /// Micron MEM
    MicronMEM,
    /// Macronix OCTAL
    MacronixOCTAL,
    /// Cypress OCTAL
    CypressOCTAL,
    /// Winbond OCTAL
    WinbondOCTAL,
    /// ISSI OCTAL
    ISSIOCTAL,
    /// GigaDevice OCTAL
    GigaDeviceOCTAL,
    /// Reserved
    Reserved,
}

impl DeviceType {
    /// The register encoding of this value.
    pub open spec fn value(self) -> u32 {
        match self {
            DeviceType::HyperBus => 0u32,
            DeviceType::MicronMEM => 1u32,
            DeviceType::MacronixOCTAL => 2u32,
            DeviceType::CypressOCTAL => 3u32,
            DeviceType::WinbondOCTAL => 4u32,
            DeviceType::ISSIOCTAL => 5u32,
            DeviceType::GigaDeviceOCTAL => 6u32,
            DeviceType::Reserved => 7u32,
        }
    }

    /// The register encoding of this value.
    pub fn bits(self) -> (r: u32)
        ensures
            r == self.value(),
    {
        match self {
            DeviceType::HyperBus => 0,
            DeviceType::MicronMEM => 1,
            DeviceType::MacronixOCTAL => 2,
            DeviceType::CypressOCTAL => 3,
            DeviceType::WinbondOCTAL => 4,
            DeviceType::ISSIOCTAL => 5,
            DeviceType::GigaDeviceOCTAL => 6,
            DeviceType::Reserved => 7,
        }
    }
}

/// HSPI instance
pub struct Hspi {
    base: usize,
}

impl Hspi {
    /// Base address of this instance's register block.
    pub closed spec fn base_addr(&self) -> usize {
        self.base
    }

    /// Base address of this instance's register block.
    pub fn base(&self) -> (r: usize)
        ensures
            r == self.base_addr(),
    {
        self.base
    }

    /// Create HSPI1 instance
    pub fn hspi1() -> (r: Self)
        ensures
            r.base_addr() == HSPI1_BASE,
    {
        Self { base: HSPI1_BASE }
    }

    /// The writes of `init`: DCR1 (HyperBus device type, memory size 2^(23+1)
    /// bytes, clock mode 0), DCR2 (prescaler 0), HLCR (latency code 6 at bit 1,
    /// maximum latency 6 at bit 8), then CR with the peripheral enabled.
    pub fn init(&self, cr: u32) -> (r: [RegisterWrite; 4])
        ensures
            r[0] == (RegisterWrite { offset: reg::DCR1, value: (DeviceType::HyperBus.value() & 0xFu32) | (23u32 << 16) | (ClockMode::Mode0.value() << 24) }),
            r[1] == (RegisterWrite { offset: reg::DCR2, value: 0 }),
            r[2] == (RegisterWrite { offset: reg::HLCR, value: (6u32 << 1) | (6u32 << 8) }),
            r[3] == (RegisterWrite { offset: reg::CR, value: regs::with_bit(cr, 0, true) }),
    {
        [
            RegisterWrite { offset: reg::DCR1, value: (DeviceType::HyperBus.bits() & 0xF) | (23u32 << 16) | (ClockMode::Mode0.bits() << 24) },
            RegisterWrite { offset: reg::DCR2, value: 0 },
            RegisterWrite { offset: reg::HLCR, value: (6u32 << 1) | (6u32 << 8) },
            RegisterWrite { offset: reg::CR, value: set_bit(cr, 0) },
        ]
    }

    /// CR with HyperBus mode enabled (HBEN, bit 1).
    pub fn enable_hyperbus(&self, cr: u32) -> (r: u32)
        ensures
            r == regs::with_bit(cr, 1, true),
    {
        set_bit(cr, 1)
    }

    /// CR with HyperBus mode disabled.
    pub fn disable_hyperbus(&self, cr: u32) -> (r: u32)
        ensures
            r == regs::with_bit(cr, 1, false),
    {
        clear_bit(cr, 1)
    }

    /// The writes of `configure_memory_mapped_read` for memory-mapped read: TCR with the dummy cycles (low 6 bits of `latency`), then CCR with
    /// the instruction, octal instruction/address/alternate/data phases, 32-bit
    /// addresses and memory-mapped mode (FMODE, bit 26).
    pub fn configure_memory_mapped_read(&self, instruction: u8, latency: u8) -> (r: [RegisterWrite; 2])
        ensures
            r[0] == (RegisterWrite { offset: reg::TCR, value: (latency & 0x3F) as u32 }),
            r[1] == (RegisterWrite { offset: reg::CCR, value: ((instruction as u32) | ((DataLines::Octal.value() & 0x7u32) << 8) | ((DataLines::Octal.value() & 0x7u32) << 10) | (2u32 << 12) | ((DataLines::Octal.value() & 0x7u32) << 14) | ((DataLines::Octal.value() & 0x7u32) << 18) | (1u32 << 26)) }),
    {
        [
            RegisterWrite { offset: reg::TCR, value: (latency & 0x3F) as u32 },
            RegisterWrite { offset: reg::CCR, value: ((instruction as u32) | ((DataLines::Octal.bits() & 0x7u32) << 8) | ((DataLines::Octal.bits() & 0x7u32) << 10) | (2u32 << 12) | ((DataLines::Octal.bits() & 0x7u32) << 14) | ((DataLines::Octal.bits() & 0x7u32) << 18) | (1u32 << 26)) },
        ]
    }

    /// The writes of `configure_memory_mapped_write` for memory-mapped write: WTCR with the dummy cycles (low 6 bits of `latency`), then WCCR
    /// with the instruction, octal phases and 32-bit addresses.
    pub fn configure_memory_mapped_write(&self, instruction: u8, latency: u8) -> (r: [RegisterWrite; 2])
        ensures
            r[0] == (RegisterWrite { offset: reg::WTCR, value: (latency & 0x3F) as u32 }),
            r[1] == (RegisterWrite { offset: reg::WCCR, value: ((instruction as u32) | ((DataLines::Octal.value() & 0x7u32) << 8) | ((DataLines::Octal.value() & 0x7u32) << 10) | (2u32 << 12) | ((DataLines::Octal.value() & 0x7u32) << 14) | ((DataLines::Octal.value() & 0x7u32) << 18)) }),
    {
        [
            RegisterWrite { offset: reg::WTCR, value: (latency & 0x3F) as u32 },
            RegisterWrite { offset: reg::WCCR, value: ((instruction as u32) | ((DataLines::Octal.bits() & 0x7u32) << 8) | ((DataLines::Octal.bits() & 0x7u32) << 10) | (2u32 << 12) | ((DataLines::Octal.bits() & 0x7u32) << 14) | ((DataLines::Octal.bits() & 0x7u32) << 18)) },
        ]
    }

    /// CR with memory-mapped mode enabled (MMEN, bit 4).
    pub fn enable_memory_mapped(&self, cr: u32) -> (r: u32)
        ensures
            r == regs::with_bit(cr, 4, true),
    {
        set_bit(cr, 4)
    }

    /// CR with memory-mapped mode disabled.
    pub fn disable_memory_mapped(&self, cr: u32) -> (r: u32)
        ensures
            r == regs::with_bit(cr, 4, false),
    {
        clear_bit(cr, 4)
    }

    /// CR with DMA enabled (DMAEN, bit 2).
    pub fn enable_dma(&self, cr: u32) -> (r: u32)
        ensures
            r == regs::with_bit(cr, 2, true),
    {
        set_bit(cr, 2)
    }

    /// CR with DMA disabled.
    pub fn disable_dma(&self, cr: u32) -> (r: u32)
        ensures
            r == regs::with_bit(cr, 2, false),
    {
        clear_bit(cr, 2)
    }

    /// Whether SR reports a transfer in progress (TIP, bit 0).
    pub fn is_busy(&self, sr: u32) -> (r: bool)
        ensures
            r == regs::bit(sr, 0),
    {
        test_bit(sr, 0)
    }

    /// Whether SR reports the HyperBus busy (HBBY, bit 1).
    pub fn is_hb_busy(&self, sr: u32) -> (r: bool)
        ensures
            r == regs::bit(sr, 1),
    {
        test_bit(sr, 1)
    }

    /// Whether SR reports the transfer complete (TCF, bit 5).
    pub fn is_transfer_complete(&self, sr: u32) -> (r: bool)
        ensures
            r == regs::bit(sr, 5),
    {
        test_bit(sr, 5)
    }

    /// Whether SR reports a transfer error (TEF, bit 4).
    pub fn has_transfer_error(&self, sr: u32) -> (r: bool)
        ensures
            r == regs::bit(sr, 4),
    {
        test_bit(sr, 4)
    }

    /// FCR word of `clear_tcf`.
    pub fn clear_tcf(&self) -> (r: u32)
        ensures
            r == sr_bits::TCF,
    {
        sr_bits::TCF
    }

    /// FCR word of `clear_tef`.
    pub fn clear_tef(&self) -> (r: u32)
        ensures
            r == sr_bits::TEF,
    {
        sr_bits::TEF
    }

    /// FCR word of `clear_flags`: transfer complete, transfer error, timeout
    /// and match flags.
    pub fn clear_flags(&self) -> (r: u32)
        ensures
            r == sr_bits::TCF | sr_bits::TEF | sr_bits::TOF | sr_bits::MF,
    {
        sr_bits::TCF | sr_bits::TEF | sr_bits::TOF | sr_bits::MF
    }

    /// DCR2 word of `set_prescaler`.
    pub fn set_prescaler(&self, prescaler: u8) -> (r: u32)
        ensures
            r == (prescaler & 0xFF) as u32,
    {
        (prescaler & 0xFF) as u32
    }

    /// The writes of `configure_polling`: the status mask, then the match
    /// value.
    pub fn configure_polling(&self, mask: u32, match_val: u32) -> (r: [RegisterWrite; 2])
        ensures
            r[0] == (RegisterWrite { offset: reg::PSMKR, value: mask }),
            r[1] == (RegisterWrite { offset: reg::PSMAR, value: match_val }),
    {
        [RegisterWrite { offset: reg::PSMKR, value: mask }, RegisterWrite { offset: reg::PSMAR, value: match_val }]
    }

    /// CR with the timeout counter enabled (TOEN, bit 3).
    pub fn enable_timeout(&self, cr: u32) -> (r: u32)
        ensures
            r == regs::with_bit(cr, 3, true),
    {
        set_bit(cr, 3)
    }

    /// CR with the peripheral disabled (EN cleared).
    pub fn disable(&self, cr: u32) -> (r: u32)
        ensures
            r == regs::with_bit(cr, 0, false),
    {
        clear_bit(cr, 0)
    }

}

} // verus!
