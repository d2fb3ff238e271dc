//! SAI - Serial Audio Interface
//!
//! The STM32U5 SAI has two independent audio blocks (A and B) that support
//! I2S (LSB/MSB justified), PCM/DSP, TDM, SPDIF output and AC'97, with an
//! 8-word FIFO per block and DMA transfers.
use vstd::prelude::*;
use crate::regs::{self, RegisterWrite, flag_bits, set_bit, test_bit};
pub mod block_reg;

verus! {

/// SAI1 base address
pub const SAI1_BASE: usize = 0x4001_5400;
/// SAI2 base address
pub const SAI2_BASE: usize = 0x4001_5800;
/// SAI block offset
pub const SAI_BLOCK_A_OFFSET: usize = 0x00;
pub const SAI_BLOCK_B_OFFSET: usize = 0x20;

/// SAI mode
#[derive(Clone, Copy, Debug, PartialEq, Eq, Structural)]
pub enum SaiMode {
    /// Master transmitter
    MasterTx,
    /// Master receiver
    MasterRx,
    /// Slave transmitter
    SlaveTx,
    /// Slave receiver
    SlaveRx,
}

impl SaiMode {
    /// The register encoding of this value.
    pub open spec fn value(self) -> u32 {
        match self {
            SaiMode::MasterTx => 0b00u32,
            SaiMode::MasterRx => 0b01u32,
            SaiMode::SlaveTx => 0b10u32,
            SaiMode::SlaveRx => 0b11u32,
        }
    }

    /// The register encoding of this value.
    pub fn bits(self) -> (r: u32)
        ensures
            r == self.value(),
    {
        match self {
            SaiMode::MasterTx => 0b00,
            SaiMode::MasterRx => 0b01,
            SaiMode::SlaveTx => 0b10,
            SaiMode::SlaveRx => 0b11,
        }
    }
}

/// SAI protocol
#[derive(Clone, Copy, Debug, PartialEq, Eq, Structural)]
pub enum Protocol {
    /// Free protocol
    Free,
    /// SPDIF
    Spdif,
    /// AC'97
    Ac97,
}

impl Protocol {
    /// The register encoding of this value.
    pub open spec fn value(self) -> u32 {
        match self {
            Protocol::Free => 0b00u32,
            Protocol::Spdif => 0b01u32,
            Protocol::Ac97 => 0b10u32,
        }
    }

    /// The register encoding of this value.
    pub fn bits(self) -> (r: u32)
        ensures
            r == self.value(),
    {
        match self {
            Protocol::Free => 0b00,
            Protocol::Spdif => 0b01,
            Protocol::Ac97 => 0b10,
        }
    }
}

/// SAI data size
#[derive(Clone, Copy, Debug, PartialEq, Eq, Structural)]
pub enum DataSize {
    Bits8,
    Bits10,
    Bits16,
    Bits20,
    Bits24,
    Bits32,
}

impl DataSize {
    /// The register encoding of this value.
    pub open spec fn value(self) -> u32 {
        match self {
            DataSize::Bits8 => 0b010u32,
            DataSize::Bits10 => 0b011u32,
            DataSize::Bits16 => 0b100u32,
            DataSize::Bits20 => 0b101u32,
            DataSize::Bits24 => 0b110u32,
            DataSize::Bits32 => 0b111u32,
        }
    }

    /// The register encoding of this value.
    pub fn bits(self) -> (r: u32)
        ensures
            r == self.value(),
    {
        match self {
            DataSize::Bits8 => 0b010,
            DataSize::Bits10 => 0b011,
            DataSize::Bits16 => 0b100,
            DataSize::Bits20 => 0b101,
            DataSize::Bits24 => 0b110,
            DataSize::Bits32 => 0b111,
        }
    }
}

/// SAI configuration
#[derive(Clone, Copy, Debug)]
pub struct Config {
    pub mode: SaiMode,
    pub protocol: Protocol,
    pub data_size: DataSize,
    pub sample_rate: u32,
    pub mono: bool,
}

impl Default for Config {
    fn default() -> (r: Self)
        ensures
            r == (Config { mode: SaiMode::MasterTx, protocol: Protocol::Free, data_size: DataSize::Bits16, sample_rate: 48000, mono: false }),
    {
        Config { mode: SaiMode::MasterTx, protocol: Protocol::Free, data_size: DataSize::Bits16, sample_rate: 48000, mono: false }
    }
}

/// SAI block
pub struct SaiBlock {
    base: usize,
    block_offset: usize,
}

impl SaiBlock {
    /// A block lies at block A or B of SAI1 or SAI2.
    #[verifier::type_invariant]
    spec fn inv(self) -> bool {
        &&& (self.base == SAI1_BASE || self.base == SAI2_BASE)
        &&& (self.block_offset == SAI_BLOCK_A_OFFSET || self.block_offset == SAI_BLOCK_B_OFFSET)
    }

    /// Base address of the SAI that holds this block.
    pub closed spec fn base_addr(&self) -> usize {
        self.base
    }

    /// Offset of this block from its SAI's base address.
    pub closed spec fn offset(&self) -> usize {
        self.block_offset
    }

    /// Base address of this block's registers.
    pub fn block_base(&self) -> (r: usize)
        ensures
            r == self.base_addr() + self.offset(),
    {
        proof {
            use_type_invariant(self);
        }
        self.base + self.block_offset
    }

    /// CR1 value of `init`: the mode at bit 0, the protocol at bit 2, the
    /// data size at bit 5 and mono at bit 12.
    pub open spec fn cr1_value(config: Config) -> u32 {
        config.mode.value() | (config.protocol.value() << 2u32) | (config.data_size.value() << 5u32) | (regs::flag(config.mono)
            << 12u32)
    }

    /// The writes of `init`, at offsets from the block's base: CR1 cleared,
    /// CR1 configured, FRCR for a 32-bit frame with a 16-bit active sync
    /// (FRL = 31, FSALL = 15, FSOFF and FSPOL set), SLOTR with one 16-bit
    /// slot, slot 0 enabled, then CR1 with the block enabled (SAIEN, bit 16).
    pub open spec fn init_writes(config: Config) -> Seq<RegisterWrite> {
        seq![
            RegisterWrite { offset: block_reg::SAI_CR1, value: 0 },
            RegisterWrite { offset: block_reg::SAI_CR1, value: Self::cr1_value(config) },
            RegisterWrite { offset: block_reg::SAI_FRCR, value: 31u32 | (15u32 << 8u32) | (1u32 << 16u32) | (1u32 << 17u32) },
            RegisterWrite { offset: block_reg::SAI_SLOTR, value: (0b11u32 << 6u32) | 1u32 | (1u32 << 16u32) },
            RegisterWrite { offset: block_reg::SAI_CR1, value: regs::with_bit(Self::cr1_value(config), 16, true) },
        ]
    }

    /// The writes of `init`; the master clock frequency plays no part.
    pub fn init(&self, config: &Config, mclk_freq: u32) -> (r: Vec<RegisterWrite>)
        ensures
            r@ == Self::init_writes(*config),
    {
        let cr1 = config.mode.bits() | (config.protocol.bits() << 2u32) | (config.data_size.bits() << 5u32) | (flag_bits(config.mono) << 12u32);
        let mut r: Vec<RegisterWrite> = Vec::new();
        r.push(RegisterWrite { offset: block_reg::SAI_CR1, value: 0 });
        r.push(RegisterWrite { offset: block_reg::SAI_CR1, value: cr1 });
        r.push(RegisterWrite { offset: block_reg::SAI_FRCR, value: 31u32 | (15u32 << 8u32) | (1u32 << 16u32) | (1u32 << 17u32) });
        r.push(RegisterWrite { offset: block_reg::SAI_SLOTR, value: (0b11u32 << 6u32) | 1u32 | (1u32 << 16u32) });
        r.push(RegisterWrite { offset: block_reg::SAI_CR1, value: set_bit(cr1, 16) });
        assert(r@ =~= Self::init_writes(*config));
        r
    }

    /// Whether the FIFO is empty (bit 4 of SR).
    pub fn is_fifo_empty(&self, sr: u32) -> (r: bool)
        ensures
            r == regs::bit(sr, 4),
    {
        test_bit(sr, 4)
    }

    /// Whether the FIFO is full (bit 5 of SR).
    pub fn is_fifo_full(&self, sr: u32) -> (r: bool)
        ensures
            r == regs::bit(sr, 5),
    {
        test_bit(sr, 5)
    }

}

/// SAI instance
pub struct Sai {
    base: usize,
}

impl Sai {
    /// An instance is SAI1 or SAI2.
    #[verifier::type_invariant]
    spec fn inv(self) -> bool {
        self.base == SAI1_BASE || self.base == SAI2_BASE
    }

    /// Block A of this SAI.
    pub fn block_a(&self) -> (r: SaiBlock)
        ensures
            r.base_addr() == self.base_addr(),
            r.offset() == SAI_BLOCK_A_OFFSET,
    {
        proof {
            use_type_invariant(self);
        }
        SaiBlock { base: self.base, block_offset: SAI_BLOCK_A_OFFSET }
    }

    /// Block B of this SAI.
    pub fn block_b(&self) -> (r: SaiBlock)
        ensures
            r.base_addr() == self.base_addr(),
            r.offset() == SAI_BLOCK_B_OFFSET,
    {
        proof {
            use_type_invariant(self);
        }
        SaiBlock { base: self.base, block_offset: SAI_BLOCK_B_OFFSET }
    }

    /// RCC APB2ENR clock-enable bit of this instance: SAI1EN (bit 21) for
    /// SAI1, SAI2EN (bit 22) for SAI2.
    pub open spec fn clock_bit(&self) -> u32 {
        if self.base_addr() == SAI1_BASE {
            crate::rcc::apb2::SAI1
        } else {
            crate::rcc::apb2::SAI2
        }
    }

    /// RCC APB2ENR with the clock of this instance enabled, the write of
    /// `init`: SAI1EN for SAI1, SAI2EN for SAI2, every other bit unchanged.
    pub fn init(&self, apb2enr: u32) -> (r: u32)
        ensures
            r == apb2enr | self.clock_bit(),
            self.base_addr() == SAI1_BASE ==> r == apb2enr | crate::rcc::apb2::SAI1,
            self.base_addr() == SAI2_BASE ==> r == apb2enr | crate::rcc::apb2::SAI2,
    {
        proof {
            use_type_invariant(self);
        }
        if self.base == SAI1_BASE {
            apb2enr | crate::rcc::apb2::SAI1
        } else {
            apb2enr | crate::rcc::apb2::SAI2
        }
    }

    /// Base address of this instance's register block.
    pub closed spec fn base_addr(&self) -> usize {
        self.base
    }

    /// Base address of this instance's register block.
    pub fn base(&self) -> (r: usize)
        ensures
            r == self.base_addr(),
    {
        self.base
    }

    pub fn sai1() -> (r: Self)
        ensures
            r.base_addr() == SAI1_BASE,
    {
        Self { base: SAI1_BASE }
    }

    pub fn sai2() -> (r: Self)
        ensures
            r.base_addr() == SAI2_BASE,
    {
        Self { base: SAI2_BASE }
    }

}

/// Block configuration of `init_sai_i2s_output`: 16-bit stereo master
/// transmitter at 48 kHz.
pub open spec fn i2s_output_config() -> Config {
    Config { mode: SaiMode::MasterTx, protocol: Protocol::Free, data_size: DataSize::Bits16, sample_rate: 48000, mono: false }
}

/// The writes of `init_sai_i2s_output` on block A of SAI1 (after its clock
/// is enabled with `Sai::init`).
pub fn init_sai_i2s_output() -> (r: Vec<RegisterWrite>)
    ensures
        r@ == SaiBlock::init_writes(i2s_output_config()),
{
    let sai = Sai::sai1();
    let block_a = sai.block_a();
    let config = Config { mode: SaiMode::MasterTx, protocol: Protocol::Free, data_size: DataSize::Bits16, sample_rate: 48000, mono: false };
    block_a.init(&config, 12288000)
}

} // verus!
