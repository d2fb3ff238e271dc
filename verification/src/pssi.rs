//! PSSI - Parallel Synchronous Slave Interface
//!
//! ## Features
//! - 8-bit and 16-bit data
//! - DMA transfers
//! - Ready and data-enable control signals
//! - Single and continuous transfer modes
//!
//! ## Reference
//! - RM0456 Reference Manual, Chapter 42: Parallel synchronous slave interface (PSSI)
//! - RM0456 Section 42.1: PSSI introduction
//! - RM0456 Section 42.2: PSSI main features
//! - RM0456 Section 42.3: PSSI functional description
//! - RM0456 Section 42.4: PSSI registers
use vstd::prelude::*;
use crate::regs::{self, clear_bit, flag_bits, set_bit, test_bit};
pub mod reg;
pub mod cr_bits;
pub mod sr_bits;
pub mod int_bits;

verus! {

broadcast use regs::lemma_low_mask_value;

/// PSSI base address
pub const PSSI_BASE: usize = 0x4004_0400;

/// Data width
#[derive(Clone, Copy, Debug, PartialEq, Eq, Structural)]
pub enum DataWidth {
    /// 8-bit data width
    Bits8,
    /// 16-bit data width
    Bits16,
}

impl DataWidth {
    /// The register encoding of this value.
    pub open spec fn value(self) -> u32 {
        match self {
            DataWidth::Bits8 => 0u32,
            DataWidth::Bits16 => 1u32,
        }
    }

    /// The register encoding of this value.
    pub fn bits(self) -> (r: u32)
        ensures
            r == self.value(),
    {
        match self {
            DataWidth::Bits8 => 0,
            DataWidth::Bits16 => 1,
        }
    }
}

/// Bus width
#[derive(Clone, Copy, Debug, PartialEq, Eq, Structural)]
pub enum BusWidth {
    /// 8-bit bus width
    Bits8,
    /// 16-bit bus width
    Bits16,
}

impl BusWidth {
    /// The register encoding of this value.
    pub open spec fn value(self) -> u32 {
        match self {
            BusWidth::Bits8 => 0u32,
            BusWidth::Bits16 => 1u32,
        }
    }

    /// The register encoding of this value.
    pub fn bits(self) -> (r: u32)
        ensures
            r == self.value(),
    {
        match self {
            BusWidth::Bits8 => 0,
            BusWidth::Bits16 => 1,
        }
    }
}

/// Control signal
#[derive(Clone, Copy, Debug, PartialEq, Eq, Structural)]
pub enum ControlSignal {
    /// Both PCLK and PDEN
    Both,
    /// PCLK only
    PclkOnly,
    /// PDEN only
    PdenOnly,
}

impl ControlSignal {
    /// The register encoding of this value.
    pub open spec fn value(self) -> u32 {
        match self {
            ControlSignal::Both => 0u32,
            ControlSignal::PclkOnly => 1u32,
            ControlSignal::PdenOnly => 2u32,
        }
    }

    /// The register encoding of this value.
    pub fn bits(self) -> (r: u32)
        ensures
            r == self.value(),
    {
        match self {
            ControlSignal::Both => 0,
            ControlSignal::PclkOnly => 1,
            ControlSignal::PdenOnly => 2,
        }
    }
}

/// Ready polarity
#[derive(Clone, Copy, Debug, PartialEq, Eq, Structural)]
pub enum ReadyPolarity {
    /// Active low
    ActiveLow,
    /// Active high
    ActiveHigh,
}

impl ReadyPolarity {
    /// The register encoding of this value.
    pub open spec fn value(self) -> u32 {
        match self {
            ReadyPolarity::ActiveLow => 0u32,
            ReadyPolarity::ActiveHigh => 1u32,
        }
    }

    /// The register encoding of this value.
    pub fn bits(self) -> (r: u32)
        ensures
            r == self.value(),
    {
        match self {
            ReadyPolarity::ActiveLow => 0,
            ReadyPolarity::ActiveHigh => 1,
        }
    }
}

/// PSSI configuration
#[derive(Clone, Copy, Debug)]
pub struct Config {
    /// Data width
    pub data_width: DataWidth,
    /// Bus width
    pub bus_width: BusWidth,
    /// Control signal
    pub control_signal: ControlSignal,
    /// Ready polarity
    pub ready_polarity: ReadyPolarity,
    /// Output enable
    pub outen_enable: bool,
    /// DMA enable
    pub dma_enable: bool,
    /// Continuous mode
    pub continuous: bool,
}

impl Default for Config {
    fn default() -> (r: Self)
        ensures
            r == (Config { data_width: DataWidth::Bits8, bus_width: BusWidth::Bits8, control_signal: ControlSignal::Both, ready_polarity: ReadyPolarity::ActiveHigh, outen_enable: false, dma_enable: false, continuous: true }),
    {
        Config { data_width: DataWidth::Bits8, bus_width: BusWidth::Bits8, control_signal: ControlSignal::Both, ready_polarity: ReadyPolarity::ActiveHigh, outen_enable: false, dma_enable: false, continuous: true }
    }
}

/// PSSI instance
pub struct Pssi;

impl Pssi {
    /// Create new PSSI instance
    pub fn new() -> (r: Self) {
        Pssi
    }

    /// RCC word at offset 0xDC with the PSSI clock enabled (bit 12).
    pub fn enable_clock(&self, ahb2enr: u32) -> (r: u32)
        ensures
            r == regs::with_bit(ahb2enr, 12, true),
    {
        set_bit(ahb2enr, 12)
    }

    /// RCC word at offset 0xDC with the PSSI clock disabled (bit 12).
    pub fn disable_clock(&self, ahb2enr: u32) -> (r: u32)
        ensures
            r == regs::with_bit(ahb2enr, 12, false),
    {
        clear_bit(ahb2enr, 12)
    }

    /// CR value for a configuration: data width at bit 0, bus width at bit
    /// 4, control signals at bit 6, ready polarity at bit 8, output enable at
    /// bit 16, DMA at bit 17, continuous mode at bit 18.
    pub open spec fn cr_value(config: Config) -> u32 {
        config.data_width.value() | (config.bus_width.value() << 4u32) | (config.control_signal.value() << 6u32)
            | (config.ready_polarity.value() << 8u32) | (regs::flag(config.outen_enable) << 16u32) | (regs::flag(
            config.dma_enable,
        ) << 17u32) | (regs::flag(config.continuous) << 18u32)
    }

    /// CR value written by `configure`.
    pub fn configure(&self, config: &Config) -> (r: u32)
        ensures
            r == Self::cr_value(*config),
    {
        config.data_width.bits() | (config.bus_width.bits() << 4u32) | (config.control_signal.bits() << 6u32)
            | (config.ready_polarity.bits() << 8u32) | (flag_bits(config.outen_enable) << 16u32) | (flag_bits(
            config.dma_enable,
        ) << 17u32) | (flag_bits(config.continuous) << 18u32)
    }

    /// CR with the interface enabled (PSSIEN, bit 14).
    pub fn enable(&self, cr: u32) -> (r: u32)
        ensures
            r == regs::with_bit(cr, 14, true),
    {
        set_bit(cr, 14)
    }

    /// CR with the interface disabled (PSSIEN, bit 14).
    pub fn disable(&self, cr: u32) -> (r: u32)
        ensures
            r == regs::with_bit(cr, 14, false),
    {
        clear_bit(cr, 14)
    }

    /// CR with a transfer started (START, bit 15).
    pub fn start_transfer(&self, cr: u32) -> (r: u32)
        ensures
            r == regs::with_bit(cr, 15, true),
    {
        set_bit(cr, 15)
    }

    /// CR with the transfer stopped (START, bit 15).
    pub fn stop_transfer(&self, cr: u32) -> (r: u32)
        ensures
            r == regs::with_bit(cr, 15, false),
    {
        clear_bit(cr, 15)
    }

    /// DR word of `write_data`.
    pub fn write_data(&self, data: u16) -> (r: u32)
        ensures
            r == data as u32,
    {
        data as u32
    }

    /// The data read from DR: its low 16 bits.
    pub fn read_data(&self, dr: u32) -> (r: u16)
        ensures
            r == dr as u16,
    {
        dr as u16
    }

    /// Whether received data is waiting (RBNE, bit 0).
    pub fn is_rx_not_empty(&self, sr: u32) -> (r: bool)
        ensures
            r == regs::bit(sr, 0),
    {
        test_bit(sr, 0)
    }

    /// Whether the transmit buffer is empty (TBE, bit 1).
    pub fn is_tx_empty(&self, sr: u32) -> (r: bool)
        ensures
            r == regs::bit(sr, 1),
    {
        test_bit(sr, 1)
    }

    /// Whether a transfer is in progress (BUSY, bit 2).
    pub fn is_busy(&self, sr: u32) -> (r: bool)
        ensures
            r == regs::bit(sr, 2),
    {
        test_bit(sr, 2)
    }

    /// Whether an overrun occurred (OVR, bit 3).
    pub fn is_overrun(&self, sr: u32) -> (r: bool)
        ensures
            r == regs::bit(sr, 3),
    {
        test_bit(sr, 3)
    }

    /// ICR word of `clear_overrun`.
    pub fn clear_overrun(&self) -> (r: u32)
        ensures
            r == int_bits::OVR,
    {
        int_bits::OVR
    }

    /// IER with interrupt `source` enabled.
    pub fn enable_interrupt(&self, source: u8, ier: u32) -> (r: u32)
        requires
            source < 32,
        ensures
            r == regs::with_bit(ier, source as u32, true),
    {
        set_bit(ier, source as u32)
    }

    /// IER with interrupt `source` disabled.
    pub fn disable_interrupt(&self, source: u8, ier: u32) -> (r: u32)
        requires
            source < 32,
        ensures
            r == regs::with_bit(ier, source as u32, false),
    {
        clear_bit(ier, source as u32)
    }

    /// DR word of `send_byte`, written once `is_tx_empty` reads true.
    pub fn send_byte(&self, data: u8) -> (r: u32)
        ensures
            r == data as u32,
    {
        self.write_data(data as u16)
    }

    /// The byte of `receive_byte`: the low 8 bits of DR, read once
    /// `is_rx_not_empty` reads true.
    pub fn receive_byte(&self, dr: u32) -> (r: u8)
        ensures
            r == dr as u8,
    {
        dr as u8
    }

    /// DR word of `send_halfword`, written once `is_tx_empty` reads true.
    pub fn send_halfword(&self, data: u16) -> (r: u32)
        ensures
            r == data as u32,
    {
        self.write_data(data)
    }

    /// The half-word of `receive_halfword`: the low 16 bits of DR, read once
    /// `is_rx_not_empty` reads true.
    pub fn receive_halfword(&self, dr: u32) -> (r: u16)
        ensures
            r == dr as u16,
    {
        self.read_data(dr)
    }

    /// The DR words of `send_buffer`, one byte each, in order.
    pub fn send_buffer(&self, buffer: &[u8]) -> (r: Vec<u32>)
        ensures
            r@.len() == buffer@.len(),
            forall|i: int| 0 <= i < r@.len() ==> #[trigger] r@[i] == buffer@[i] as u32,
    {
        let mut r: Vec<u32> = Vec::new();
        let mut i: usize = 0;
        while i < buffer.len()
            invariant
                i <= buffer@.len(),
                r@.len() == i,
                forall|k: int| 0 <= k < i ==> #[trigger] r@[k] == buffer@[k] as u32,
            decreases buffer@.len() - i,
        {
            r.push(self.send_byte(buffer[i]));
            i = i + 1;
        }
        r
    }

    /// `receive_buffer`: fills `buffer` with the bytes of the DR words
    /// `reads`, one read per byte, in order.
    pub fn receive_buffer(&self, buffer: &mut [u8], reads: &[u32])
        requires
            reads@.len() == old(buffer)@.len(),
        ensures
            final(buffer)@.len() == old(buffer)@.len(),
            forall|i: int| 0 <= i < reads@.len() ==> #[trigger] final(buffer)@[i] == reads@[i] as u8,
    {
        let mut i: usize = 0;
        while i < buffer.len()
            invariant
                i <= buffer@.len(),
                buffer@.len() == reads@.len(),
                forall|k: int| 0 <= k < i ==> #[trigger] buffer@[k] == reads@[k] as u8,
            decreases buffer@.len() - i,
        {
            buffer[i] = self.receive_byte(reads[i]);
            i = i + 1;
        }
    }

}

} // verus!
