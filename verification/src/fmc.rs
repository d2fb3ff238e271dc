//! FMC - Flexible Memory Controller
//!
//! ## Features
//! Supported Memory Types:
//! - NOR flash (asynchronous/synchronous)
//! - PSRAM (CellularRAM, pseudo-SRAM)
//! - SRAM
//! - NAND flash (8-bit data width)
//! - SDRAM (synchronous DRAM)
//!
//! Data Width:
//! - NOR/PSRAM/SRAM: **8-bit, 16-bit** (Note: STM32U5 FMC does NOT support 32-bit data width for external memories)
//! - NAND: 8-bit only
//! - SDRAM: 8-bit, 16-bit
//!
//! Address Ranges:
//! - Bank1 (NOR/PSRAM/SRAM): 0x6000_0000 - 0x6FFF_FFFF (256MB per sub-bank)
//! - Bank2 (NAND): 0x8000_0000 - 0x8FFF_FFFF
//! - Bank3 (NAND): 0x8000_0000 - 0x8FFF_FFFF (shared)
//! - SDRAM Bank1: 0xC000_0000 - 0xCFFF_FFFF (256MB)
//! - SDRAM Bank2: 0xD000_0000 - 0xDFFF_FFFF (256MB)
//!
//! Clock:
//! - HCLK driven (up to 160 MHz on STM32U5)
//! - Programmable clock divide ratio for synchronous accesses
//!
//! Key Features:
//! - 4 independent NOR/PSRAM banks with separate configuration
//! - 2 NAND banks with ECC hardware (up to 8 bytes ECC per 512/256 bytes)
//! - 2 SDRAM banks with auto-refresh management
//! - Burst mode support for synchronous accesses
//! - Write FIFO for SDRAM
//! - Wait signal management (NWAIT)
//!
//! ## Reference
//! - RM0456 Reference Manual, Chapter 17: Flexible memory controller (FMC)
//! - DS14395 Datasheet for specific device capabilities
use vstd::prelude::*;
use crate::regs::{self, RegisterWrite, clear_bit, flag_bits, set_bit, test_bit};
pub mod reg;
pub mod bcr_bits;
pub mod btr_bits;
pub mod pcr_bits;
pub mod sr_bits;
pub mod sdcr_bits;
pub mod sdtr_bits;
pub mod sdcmr_bits;
pub mod sdrtr_bits;
pub mod sdsr_bits;
pub mod access_mode;

verus! {

broadcast use regs::lemma_low_mask_value;

/// FMC register base address
/// AHB3 bus, accessible at 0x420D_0000
pub const FMC_BASE: usize = 0x420D_0000;
/// Bank 1 base address (NOR/PSRAM/SRAM)
/// Address range: 0x6000_0000 - 0x6FFF_FFFF (256MB)
pub const FMC_BANK1_BASE: usize = 0x6000_0000;
/// Bank 2 base address (NOR/PSRAM/SRAM)
/// Address range: 0x6400_0000 - 0x67FF_FFFF (64MB)
pub const FMC_BANK2_BASE: usize = 0x6400_0000;
/// Bank 3 base address (NOR/PSRAM/SRAM)
/// Address range: 0x6800_0000 - 0x6BFF_FFFF (64MB)
pub const FMC_BANK3_BASE: usize = 0x6800_0000;
/// Bank 4 base address (NOR/PSRAM/SRAM)
/// Address range: 0x6C00_0000 - 0x6FFF_FFFF (64MB)
pub const FMC_BANK4_BASE: usize = 0x6C00_0000;
/// NAND Bank 2 base address
/// Address range: 0x8000_0000 - 0x8FFF_FFFF (256MB)
pub const FMC_NAND_BANK2_BASE: usize = 0x8000_0000;
/// NAND Bank 3 base address
/// Address range: 0x8000_0000 - 0x8FFF_FFFF (shared with Bank 2)
pub const FMC_NAND_BANK3_BASE: usize = 0x8000_0000;
/// SDRAM Bank 1 base address
/// Address range: 0xC000_0000 - 0xCFFF_FFFF (256MB)
pub const FMC_SDRAM_BANK1_BASE: usize = 0xC000_0000;
/// SDRAM Bank 2 base address
/// Address range: 0xD000_0000 - 0xDFFF_FFFF (256MB)
pub const FMC_SDRAM_BANK2_BASE: usize = 0xD000_0000;

/// FMC Bank selection
#[derive(Clone, Copy, Debug, PartialEq, Eq, Structural)]
pub enum Bank {
    Bank1,
    Bank2,
    Bank3,
    Bank4,
}

impl Bank {
    /// The register encoding of this value.
    pub open spec fn value(self) -> u32 {
        match self {
            Bank::Bank1 => 0u32,
            Bank::Bank2 => 1u32,
            Bank::Bank3 => 2u32,
            Bank::Bank4 => 3u32,
        }
    }

    /// The register encoding of this value.
    pub fn bits(self) -> (r: u32)
        ensures
            r == self.value(),
    {
        match self {
            Bank::Bank1 => 0,
            Bank::Bank2 => 1,
            Bank::Bank3 => 2,
            Bank::Bank4 => 3,
        }
    }
}

/// Memory type for NOR/PSRAM banks
#[derive(Clone, Copy, Debug, PartialEq, Eq, Structural)]
pub enum MemoryType {
    Sram,
    Psram,
    Nor,
}

impl MemoryType {
    /// The register encoding of this value.
    pub open spec fn value(self) -> u32 {
        match self {
            MemoryType::Sram => 0b00u32,
            MemoryType::Psram => 0b01u32,
            MemoryType::Nor => 0b10u32,
        }
    }

    /// The register encoding of this value.
    pub fn bits(self) -> (r: u32)
        ensures
            r == self.value(),
    {
        match self {
            MemoryType::Sram => 0b00,
            MemoryType::Psram => 0b01,
            MemoryType::Nor => 0b10,
        }
    }
}

/// Data bus width
#[derive(Clone, Copy, Debug, PartialEq, Eq, Structural)]
pub enum DataWidth {
    Bits8,
    Bits16,
}

impl DataWidth {
    /// The register encoding of this value.
    pub open spec fn value(self) -> u32 {
        match self {
            DataWidth::Bits8 => 0b00u32,
            DataWidth::Bits16 => 0b01u32,
        }
    }

    /// The register encoding of this value.
    pub fn bits(self) -> (r: u32)
        ensures
            r == self.value(),
    {
        match self {
            DataWidth::Bits8 => 0b00,
            DataWidth::Bits16 => 0b01,
        }
    }
}

/// Burst access mode
#[derive(Clone, Copy, Debug, PartialEq, Eq, Structural)]
pub enum BurstMode {
    Disabled,
    Enabled,
}

impl BurstMode {
    /// The register encoding of this value.
    pub open spec fn value(self) -> u32 {
        match self {
            BurstMode::Disabled => 0u32,
            BurstMode::Enabled => 1u32,
        }
    }

    /// The register encoding of this value.
    pub fn bits(self) -> (r: u32)
        ensures
            r == self.value(),
    {
        match self {
            BurstMode::Disabled => 0,
            BurstMode::Enabled => 1,
        }
    }
}

/// Wait signal polarity
#[derive(Clone, Copy, Debug, PartialEq, Eq, Structural)]
pub enum WaitSignalPolarity {
    ActiveLow,
    ActiveHigh,
}

impl WaitSignalPolarity {
    /// The register encoding of this value.
    pub open spec fn value(self) -> u32 {
        match self {
            WaitSignalPolarity::ActiveLow => 0u32,
            WaitSignalPolarity::ActiveHigh => 1u32,
        }
    }

    /// The register encoding of this value.
    pub fn bits(self) -> (r: u32)
        ensures
            r == self.value(),
    {
        match self {
            WaitSignalPolarity::ActiveLow => 0,
            WaitSignalPolarity::ActiveHigh => 1,
        }
    }
}

/// Wait signal timing
#[derive(Clone, Copy, Debug, PartialEq, Eq, Structural)]
pub enum WaitConfig {
    BeforeWaitState,
    DuringWaitState,
}

impl WaitConfig {
    /// The register encoding of this value.
    pub open spec fn value(self) -> u32 {
        match self {
            WaitConfig::BeforeWaitState => 0u32,
            WaitConfig::DuringWaitState => 1u32,
        }
    }

    /// The register encoding of this value.
    pub fn bits(self) -> (r: u32)
        ensures
            r == self.value(),
    {
        match self {
            WaitConfig::BeforeWaitState => 0,
            WaitConfig::DuringWaitState => 1,
        }
    }
}

/// Write burst mode
#[derive(Clone, Copy, Debug, PartialEq, Eq, Structural)]
pub enum WriteBurst {
    Single,
    Burst,
}

impl WriteBurst {
    /// The register encoding of this value.
    pub open spec fn value(self) -> u32 {
        match self {
            WriteBurst::Single => 0u32,
            WriteBurst::Burst => 1u32,
        }
    }

    /// The register encoding of this value.
    pub fn bits(self) -> (r: u32)
        ensures
            r == self.value(),
    {
        match self {
            WriteBurst::Single => 0,
            WriteBurst::Burst => 1,
        }
    }
}

/// Extended mode enable
#[derive(Clone, Copy, Debug, PartialEq, Eq, Structural)]
pub enum ExtendedMode {
    Disabled,
    Enabled,
}

impl ExtendedMode {
    /// The register encoding of this value.
    pub open spec fn value(self) -> u32 {
        match self {
            ExtendedMode::Disabled => 0u32,
            ExtendedMode::Enabled => 1u32,
        }
    }

    /// The register encoding of this value.
    pub fn bits(self) -> (r: u32)
        ensures
            r == self.value(),
    {
        match self {
            ExtendedMode::Disabled => 0,
            ExtendedMode::Enabled => 1,
        }
    }
}

/// SDRAM commands
#[derive(Clone, Copy, Debug, PartialEq, Eq, Structural)]
pub enum SdramCommand {
    Normal,
    ClockConfig,
    PrechargeAll,
    AutoRefresh,
    LoadMode,
    SelfRefresh,
    PowerDown,
}

impl SdramCommand {
    /// The register encoding of this value.
    pub open spec fn value(self) -> u32 {
        match self {
            SdramCommand::Normal => 0b000u32,
            SdramCommand::ClockConfig => 0b001u32,
            SdramCommand::PrechargeAll => 0b010u32,
            SdramCommand::AutoRefresh => 0b011u32,
            SdramCommand::LoadMode => 0b100u32,
            SdramCommand::SelfRefresh => 0b101u32,
            SdramCommand::PowerDown => 0b110u32,
        }
    }

    /// The register encoding of this value.
    pub fn bits(self) -> (r: u32)
        ensures
            r == self.value(),
    {
        match self {
            SdramCommand::Normal => 0b000,
            SdramCommand::ClockConfig => 0b001,
            SdramCommand::PrechargeAll => 0b010,
            SdramCommand::AutoRefresh => 0b011,
            SdramCommand::LoadMode => 0b100,
            SdramCommand::SelfRefresh => 0b101,
            SdramCommand::PowerDown => 0b110,
        }
    }
}

/// SDRAM bank selection
#[derive(Clone, Copy, Debug, PartialEq, Eq, Structural)]
pub enum SdramBank {
    Bank1,
    Bank2,
    Both,
}

impl SdramBank {
    /// The register encoding of this value.
    pub open spec fn value(self) -> u32 {
        match self {
            SdramBank::Bank1 => 1u32,
            SdramBank::Bank2 => 2u32,
            SdramBank::Both => 3u32,
        }
    }

    /// The register encoding of this value.
    pub fn bits(self) -> (r: u32)
        ensures
            r == self.value(),
    {
        match self {
            SdramBank::Bank1 => 1,
            SdramBank::Bank2 => 2,
            SdramBank::Both => 3,
        }
    }
}

/// NAND Bank selection
#[derive(Clone, Copy, Debug, PartialEq, Eq, Structural)]
pub enum NandBank {
    Bank2,
    Bank3,
}

impl NandBank {
    /// The register encoding of this value.
    pub open spec fn value(self) -> u32 {
        match self {
            NandBank::Bank2 => 2u32,
            NandBank::Bank3 => 3u32,
        }
    }

    /// The register encoding of this value.
    pub fn bits(self) -> (r: u32)
        ensures
            r == self.value(),
    {
        match self {
            NandBank::Bank2 => 2,
            NandBank::Bank3 => 3,
        }
    }
}

/// NAND memory type
#[derive(Clone, Copy, Debug, PartialEq, Eq, Structural)]
pub enum NandMemoryType {
    Nand8,
    Nand16,
}

impl NandMemoryType {
    /// The register encoding of this value.
    pub open spec fn value(self) -> u32 {
        match self {
            NandMemoryType::Nand8 => 0u32,
            NandMemoryType::Nand16 => 1u32,
        }
    }

    /// The register encoding of this value.
    pub fn bits(self) -> (r: u32)
        ensures
            r == self.value(),
    {
        match self {
            NandMemoryType::Nand8 => 0,
            NandMemoryType::Nand16 => 1,
        }
    }
}

/// NAND ECC size
#[derive(Clone, Copy, Debug, PartialEq, Eq, Structural)]
pub enum NandEccSize {
    ECC4,
    ECC8,
}

impl NandEccSize {
    /// The register encoding of this value.
    pub open spec fn value(self) -> u32 {
        match self {
            NandEccSize::ECC4 => 0u32,
            NandEccSize::ECC8 => 1u32,
        }
    }

    /// The register encoding of this value.
    pub fn bits(self) -> (r: u32)
        ensures
            r == self.value(),
    {
        match self {
            NandEccSize::ECC4 => 0,
            NandEccSize::ECC8 => 1,
        }
    }
}

/// NOR/PSRAM/SRAM configuration
#[derive(Clone, Copy, Debug)]
pub struct NorConfig {
    pub memory_type: MemoryType,
    pub data_width: DataWidth,
    pub burst_mode: BurstMode,
    pub wait_signal_polarity: WaitSignalPolarity,
    pub wait_config: WaitConfig,
    pub write_enable: bool,
    pub wait_enable: bool,
    pub ext_mode: ExtendedMode,
    pub async_wait: bool,
    pub write_burst: WriteBurst,
    pub continuous_clock: bool,
}

impl Default for NorConfig {
    fn default() -> (r: Self)
        ensures
            r == (NorConfig { memory_type: MemoryType::Sram, data_width: DataWidth::Bits16, burst_mode: BurstMode::Disabled, wait_signal_polarity: WaitSignalPolarity::ActiveLow, wait_config: WaitConfig::DuringWaitState, write_enable: true, wait_enable: false, ext_mode: ExtendedMode::Disabled, async_wait: false, write_burst: WriteBurst::Single, continuous_clock: false }),
    {
        NorConfig { memory_type: MemoryType::Sram, data_width: DataWidth::Bits16, burst_mode: BurstMode::Disabled, wait_signal_polarity: WaitSignalPolarity::ActiveLow, wait_config: WaitConfig::DuringWaitState, write_enable: true, wait_enable: false, ext_mode: ExtendedMode::Disabled, async_wait: false, write_burst: WriteBurst::Single, continuous_clock: false }
    }
}

/// NOR/PSRAM timing configuration
#[derive(Clone, Copy, Debug)]
pub struct Timing {
    pub address_setup: u8,
    pub address_hold: u8,
    pub data_setup: u8,
    pub bus_turn: u8,
    pub clk_div: u8,
    pub data_latency: u8,
    pub access_mode: u8,
}

impl Default for Timing {
    fn default() -> (r: Self)
        ensures
            r == (Timing { address_setup: 0, address_hold: 1, data_setup: 1, bus_turn: 0, clk_div: 2, data_latency: 0, access_mode: 0 }),
    {
        Timing { address_setup: 0, address_hold: 1, data_setup: 1, bus_turn: 0, clk_div: 2, data_latency: 0, access_mode: 0 }
    }
}

/// FMC instance
pub struct Fmc;

/// SDRAM configuration
#[derive(Clone, Copy, Debug)]
pub struct SdramConfig {
    pub column_bits: u8,
    pub row_bits: u8,
    pub data_width: DataWidth,
    pub internal_bank: u8,
    pub cas_latency: u8,
    pub write_protection: bool,
    pub read_burst: bool,
    pub read_pipe: u8,
}

impl Default for SdramConfig {
    fn default() -> (r: Self)
        ensures
            r == (SdramConfig { column_bits: 8, row_bits: 12, data_width: DataWidth::Bits16, internal_bank: 4, cas_latency: 2, write_protection: false, read_burst: true, read_pipe: 0 }),
    {
        SdramConfig { column_bits: 8, row_bits: 12, data_width: DataWidth::Bits16, internal_bank: 4, cas_latency: 2, write_protection: false, read_burst: true, read_pipe: 0 }
    }
}

/// SDRAM timing parameters
#[derive(Clone, Copy, Debug)]
pub struct SdramTiming {
    pub load_to_active_delay: u8,
    pub exit_self_refresh_delay: u8,
    pub self_refresh_time: u8,
    pub row_cycle_delay: u8,
    pub write_recovery_time: u8,
    pub rp_delay: u8,
    pub rc_delay: u8,
}

impl Default for SdramTiming {
    fn default() -> (r: Self)
        ensures
            r == (SdramTiming { load_to_active_delay: 2, exit_self_refresh_delay: 7, self_refresh_time: 4, row_cycle_delay: 7, write_recovery_time: 2, rp_delay: 2, rc_delay: 2 }),
    {
        SdramTiming { load_to_active_delay: 2, exit_self_refresh_delay: 7, self_refresh_time: 4, row_cycle_delay: 7, write_recovery_time: 2, rp_delay: 2, rc_delay: 2 }
    }
}

/// NAND configuration
#[derive(Clone, Copy, Debug)]
pub struct NandConfig {
    pub memory_type: NandMemoryType,
    pub ecc_size: NandEccSize,
    pub ecc_enable: bool,
    pub page_size: u8,
    pub wait_feature: bool,
    pub ce_control: bool,
}

impl Default for NandConfig {
    fn default() -> (r: Self)
        ensures
            r == (NandConfig { memory_type: NandMemoryType::Nand8, ecc_size: NandEccSize::ECC4, ecc_enable: true, page_size: 4, wait_feature: true, ce_control: true }),
    {
        NandConfig { memory_type: NandMemoryType::Nand8, ecc_size: NandEccSize::ECC4, ecc_enable: true, page_size: 4, wait_feature: true, ce_control: true }
    }
}

/// NAND timing configuration
#[derive(Clone, Copy, Debug)]
pub struct NandTiming {
    pub mem_setup: u8,
    pub mem_wait: u8,
    pub mem_hold: u8,
    pub mem_hiz: u8,
    pub common_setup: u8,
    pub common_wait: u8,
    pub common_hold: u8,
    pub common_hiz: u8,
}

impl Default for NandTiming {
    fn default() -> (r: Self)
        ensures
            r == (NandTiming { mem_setup: 1, mem_wait: 3, mem_hold: 1, mem_hiz: 1, common_setup: 1, common_wait: 3, common_hold: 1, common_hiz: 1 }),
    {
        NandTiming { mem_setup: 1, mem_wait: 3, mem_hold: 1, mem_hiz: 1, common_setup: 1, common_wait: 3, common_hold: 1, common_hiz: 1 }
    }
}

impl Fmc {
    pub fn new() -> (r: Self) {
        Fmc
    }

    /// BCR value that `init_nor` writes: MBKEN (bit 0) set, and the memory
    /// type, data width, burst mode, wait polarity, wait timing, write enable,
    /// wait enable, extended mode, asynchronous wait, write burst and
    /// continuous clock at bits 2, 4, 8, 9, 11, 12, 13, 14, 15, 19 and 20.
    pub open spec fn nor_bcr(config: NorConfig) -> u32 {
        (config.memory_type.value() << 2) | (config.data_width.value() << 4) | (
        config.burst_mode.value() << 8) | (config.wait_signal_polarity.value() << 9) | (
        config.wait_config.value() << 11) | (regs::flag(config.write_enable) << 12) | (regs::flag(
            config.wait_enable,
        ) << 13) | (config.ext_mode.value() << 14) | (regs::flag(config.async_wait) << 15) | (
        config.write_burst.value() << 19) | (regs::flag(config.continuous_clock) << 20) | 1
    }

    /// BTR value that `init_nor` writes: address setup, address hold, data
    /// setup, bus turnaround, clock divider, data latency and access mode
    /// shifted to bits 0, 4, 8, 16, 20, 24 and 28.
    pub open spec fn nor_btr(timing: Timing) -> u32 {
        ((timing.address_setup as u32) << 0) | ((timing.address_hold as u32) << 4) | ((
        timing.data_setup as u32) << 8) | ((timing.bus_turn as u32) << 16) | ((
        timing.clk_div as u32) << 20) | ((timing.data_latency as u32) << 24) | ((
        timing.access_mode as u32) << 28)
    }

    /// The writes of `init_nor` (after enabling the FMC clock): BCR and BTR of
    /// `bank`, at BCR1 + 8 * bank and BTR1 + 8 * bank.
    pub fn init_nor(&self, bank: Bank, config: &NorConfig, timing: &Timing) -> (r: [RegisterWrite; 2])
        ensures
            r[0] == (RegisterWrite { offset: (reg::BCR1 + 8 * bank.value()) as usize, value: Self::nor_bcr(*config) }),
            r[1] == (RegisterWrite { offset: (reg::BTR1 + 8 * bank.value()) as usize, value: Self::nor_btr(*timing) }),
    {
        let b = bank.bits() as usize;
        let bcr = (config.memory_type.bits() << 2) | (config.data_width.bits() << 4) | (
        config.burst_mode.bits() << 8) | (config.wait_signal_polarity.bits() << 9) | (
        config.wait_config.bits() << 11) | (flag_bits(config.write_enable) << 12) | (flag_bits(
            config.wait_enable,
        ) << 13) | (config.ext_mode.bits() << 14) | (flag_bits(config.async_wait) << 15) | (
        config.write_burst.bits() << 19) | (flag_bits(config.continuous_clock) << 20) | 1;
        let btr = ((timing.address_setup as u32) << 0) | ((timing.address_hold as u32) << 4) | ((
        timing.data_setup as u32) << 8) | ((timing.bus_turn as u32) << 16) | ((
        timing.clk_div as u32) << 20) | ((timing.data_latency as u32) << 24) | ((
        timing.access_mode as u32) << 28);
        [
            RegisterWrite { offset: reg::BCR1 + b * 8, value: bcr },
            RegisterWrite { offset: reg::BTR1 + b * 8, value: btr },
        ]
    }

    /// Address of byte `addr` of NOR/SRAM bank `bank`: the bank's 64 MiB
    /// window starts at FMC_BANK1_BASE + bank * 0x0400_0000.
    pub fn bank_address(&self, bank: Bank, addr: u32) -> (r: usize)
        requires
            FMC_BANK1_BASE + bank.value() * 0x0400_0000 + addr <= usize::MAX,
        ensures
            r == FMC_BANK1_BASE + bank.value() * 0x0400_0000 + addr,
    {
        FMC_BANK1_BASE + (bank.bits() as usize) * 0x0400_0000 + addr as usize
    }

    /// Base address of the memory window of NOR/SRAM bank `bank`.
    pub fn get_bank_base(&self, bank: Bank) -> (r: usize)
        ensures
            r == FMC_BANK1_BASE + bank.value() * 0x0400_0000,
            r == match bank {
                Bank::Bank1 => FMC_BANK1_BASE,
                Bank::Bank2 => FMC_BANK2_BASE,
                Bank::Bank3 => FMC_BANK3_BASE,
                Bank::Bank4 => FMC_BANK4_BASE,
            },
    {
        match bank {
            Bank::Bank1 => FMC_BANK1_BASE,
            Bank::Bank2 => FMC_BANK2_BASE,
            Bank::Bank3 => FMC_BANK3_BASE,
            Bank::Bank4 => FMC_BANK4_BASE,
        }
    }

    /// BCR with the bank disabled: MBKEN (bit 0) cleared.
    pub fn disable_bank(&self, bcr: u32) -> (r: u32)
        ensures
            r == regs::with_bit(bcr, 0, false),
    {
        clear_bit(bcr, 0)
    }

    /// Offset of the SDRAM control register of `bank` (`Both` programs the
    /// bank 1 registers) and of its timing register.
    pub open spec fn sdram_regs(bank: SdramBank) -> (usize, usize) {
        match bank {
            SdramBank::Bank2 => (reg::SDCR2, reg::SDTR2),
            _ => (reg::SDCR1, reg::SDTR1),
        }
    }

    /// SDCR value written by `init_sdram`: column bits − 8 at bit 0, row bits −
    /// 11 at bit 2, data width at bit 4, internal banks / 2 − 1 at bit 6, CAS
    /// latency − 1 at bit 7, write protection at bit 9, read burst at bit 12
    /// and read pipe delay at bit 13.
    pub open spec fn sdram_sdcr(config: SdramConfig) -> u32 {
        ((config.column_bits - 8) as u32) | (((config.row_bits - 11) as u32) << 2) | (
        config.data_width.value() << 4) | (((config.internal_bank / 2 - 1) as u32) << 6) | (((
        config.cas_latency - 1) as u32) << 7) | (regs::flag(config.write_protection) << 9) | (
        regs::flag(config.read_burst) << 12) | ((config.read_pipe as u32) << 13)
    }

    /// SDTR value written by `init_sdram`: the seven delays, as given, at bits
    /// 0, 4, 8, 12, 16, 20 and 24.
    pub open spec fn sdram_sdtr(timing: SdramTiming) -> u32 {
        (timing.load_to_active_delay as u32) | ((timing.exit_self_refresh_delay as u32) << 4) | ((
        timing.self_refresh_time as u32) << 8) | ((timing.row_cycle_delay as u32) << 12) | ((
        timing.write_recovery_time as u32) << 16) | ((timing.rp_delay as u32) << 20) | ((
        timing.rc_delay as u32) << 24)
    }

    /// The writes of `init_sdram` (after enabling the FMC clock): SDCR and SDTR
    /// of `bank`.
    pub fn init_sdram(&self, bank: SdramBank, config: &SdramConfig, timing: &SdramTiming) -> (r: [RegisterWrite; 2])
        requires
            config.column_bits >= 8,
            config.row_bits >= 11,
            config.internal_bank >= 2,
            config.cas_latency >= 1,
        ensures
            r[0] == (RegisterWrite { offset: Self::sdram_regs(bank).0, value: Self::sdram_sdcr(*config) }),
            r[1] == (RegisterWrite { offset: Self::sdram_regs(bank).1, value: Self::sdram_sdtr(*timing) }),
    {
        let (sdcr_off, sdtr_off) = match bank {
            SdramBank::Bank2 => (reg::SDCR2, reg::SDTR2),
            _ => (reg::SDCR1, reg::SDTR1),
        };
        let sdcr = ((config.column_bits - 8) as u32) | (((config.row_bits - 11) as u32) << 2) | (
        config.data_width.bits() << 4) | (((config.internal_bank / 2 - 1) as u32) << 6) | (((
        config.cas_latency - 1) as u32) << 7) | (flag_bits(config.write_protection) << 9) | (
        flag_bits(config.read_burst) << 12) | ((config.read_pipe as u32) << 13);
        let sdtr = (timing.load_to_active_delay as u32) | ((timing.exit_self_refresh_delay as u32)
            << 4) | ((timing.self_refresh_time as u32) << 8) | ((timing.row_cycle_delay as u32)
            << 12) | ((timing.write_recovery_time as u32) << 16) | ((timing.rp_delay as u32) << 20)
            | ((timing.rc_delay as u32) << 24);
        [
            RegisterWrite { offset: sdcr_off, value: sdcr },
            RegisterWrite { offset: sdtr_off, value: sdtr },
        ]
    }

    /// SDCMR word of `send_sdram_command`: the command mode in bits 0-2 and the
    /// two low bits of `bank` as the target banks (bits 3-4).
    pub fn send_sdram_command(&self, command: SdramCommand, bank: SdramBank) -> (r: u32)
        ensures
            r == command.value() | ((bank.value() & 3) << 3),
    {
        command.bits() | ((bank.bits() & 3) << 3)
    }

    /// SDRTR word of `set_sdram_refresh_rate`: the refresh count at bit 1.
    pub fn set_sdram_refresh_rate(&self, rate: u16) -> (r: u32)
        ensures
            r == (rate as u32) << 1,
    {
        (rate as u32) << 1
    }

    /// Whether the SDRAM status word reports the controller busy (BUSY,
    /// bit 5; bit 0 is the refresh-error flag).
    pub fn is_sdram_busy(&self, sdsr: u32) -> (r: bool)
        ensures
            r == regs::bit(sdsr, 5),
    {
        test_bit(sdsr, 5)
    }

    /// Address of `addr` in SDRAM bank `bank` (`Both` addresses bank 1).
    pub fn sdram_address(&self, bank: SdramBank, addr: u32) -> (r: usize)
        requires
            FMC_SDRAM_BANK2_BASE + addr <= usize::MAX,
        ensures
            r == (match bank {
                SdramBank::Bank2 => FMC_SDRAM_BANK2_BASE,
                _ => FMC_SDRAM_BANK1_BASE,
            }) + addr,
    {
        let base = match bank {
            SdramBank::Bank2 => FMC_SDRAM_BANK2_BASE,
            _ => FMC_SDRAM_BANK1_BASE,
        };
        base + addr as usize
    }

    /// SDCMR word of `sdram_clock_enable`: clock configuration enable to bank 1.
    pub fn sdram_clock_enable(&self) -> (r: u32)
        ensures
            r == sdcmr_bits::CMD_CLK_CONFIG | sdcmr_bits::CTB1,
    {
        sdcmr_bits::CMD_CLK_CONFIG | sdcmr_bits::CTB1
    }

    /// SDCMR word of `sdram_precharge_all`: precharge all to bank 1.
    pub fn sdram_precharge_all(&self) -> (r: u32)
        ensures
            r == sdcmr_bits::CMD_PRECHARGE | sdcmr_bits::CTB1,
    {
        sdcmr_bits::CMD_PRECHARGE | sdcmr_bits::CTB1
    }

    /// SDCMR word of `sdram_auto_refresh`: auto-refresh to bank 1.
    pub fn sdram_auto_refresh(&self) -> (r: u32)
        ensures
            r == sdcmr_bits::CMD_AUTOREFRESH | sdcmr_bits::CTB1,
    {
        sdcmr_bits::CMD_AUTOREFRESH | sdcmr_bits::CTB1
    }

    /// SDCMR word of `sdram_load_mode_register`: load mode register to bank 1,
    /// with the low 16 bits of `mode` from bit 5 on.
    pub fn sdram_load_mode_register(&self, mode: u32) -> (r: u32)
        ensures
            r == sdcmr_bits::CMD_LOAD_MODE | sdcmr_bits::CTB1 | ((mode & 0xffff) << 5),
    {
        sdcmr_bits::CMD_LOAD_MODE | sdcmr_bits::CTB1 | ((mode & 0xffff) << 5)
    }

    /// SDCMR word of `sdram_enter_self_refresh`: self-refresh to bank 1.
    pub fn sdram_enter_self_refresh(&self) -> (r: u32)
        ensures
            r == sdcmr_bits::CMD_SELFREFRESH | sdcmr_bits::CTB1,
    {
        sdcmr_bits::CMD_SELFREFRESH | sdcmr_bits::CTB1
    }

    /// SDCMR word of `sdram_exit_self_refresh`: normal mode to bank 1.
    pub fn sdram_exit_self_refresh(&self) -> (r: u32)
        ensures
            r == sdcmr_bits::CMD_NORMAL | sdcmr_bits::CTB1,
    {
        sdcmr_bits::CMD_NORMAL | sdcmr_bits::CTB1
    }

    /// SDCMR word of `sdram_power_down`: power-down to bank 1.
    pub fn sdram_power_down(&self) -> (r: u32)
        ensures
            r == sdcmr_bits::CMD_POWERDOWN | sdcmr_bits::CTB1,
    {
        sdcmr_bits::CMD_POWERDOWN | sdcmr_bits::CTB1
    }

    /// SDCMR word of `sdram_power_up`: normal mode to bank 1.
    pub fn sdram_power_up(&self) -> (r: u32)
        ensures
            r == sdcmr_bits::CMD_NORMAL | sdcmr_bits::CTB1,
    {
        sdcmr_bits::CMD_NORMAL | sdcmr_bits::CTB1
    }

    /// SDCR1 value of `sdram_init_sequence`: like `sdram_sdcr`, but the bank
    /// count bit (NB, bit 6) is set exactly for four internal banks.
    pub open spec fn init_sequence_sdcr(config: SdramConfig) -> u32 {
        ((config.column_bits - 8) as u32) | (((config.row_bits - 11) as u32) << 2) | (
        config.data_width.value() << 4) | (if config.internal_bank == 4 {
            sdcr_bits::NB
        } else {
            0
        }) | (((config.cas_latency - 1) as u32) << 7) | (if config.write_protection {
            sdcr_bits::WP
        } else {
            0
        }) | (if config.read_burst {
            sdcr_bits::RBURST
        } else {
            0
        }) | ((config.read_pipe as u32) << 13)
    }

    /// SDTR1 value of `sdram_init_sequence`: each delay minus one, at bits 0,
    /// 4, 8, 12, 16, 20 and 24.
    pub open spec fn init_sequence_sdtr(timing: SdramTiming) -> u32 {
        ((timing.load_to_active_delay - 1) as u32) | (((timing.exit_self_refresh_delay - 1) as u32)
            << 4) | (((timing.self_refresh_time - 1) as u32) << 8) | (((timing.row_cycle_delay
            - 1) as u32) << 12) | (((timing.write_recovery_time - 1) as u32) << 16) | (((
        timing.rp_delay - 1) as u32) << 20) | (((timing.rc_delay - 1) as u32) << 24)
    }

    /// SDCMR word of command `k` of the SDRAM power-up sequence, all to bank
    /// 1: the clock enable, precharge-all, eight auto-refreshes, then the
    /// load of mode register value 0x230.
    pub open spec fn power_up_command(k: int) -> u32 {
        if k == 0 {
            sdcmr_bits::CMD_CLK_CONFIG | sdcmr_bits::CTB1
        } else if k == 1 {
            sdcmr_bits::CMD_PRECHARGE | sdcmr_bits::CTB1
        } else if k < 10 {
            sdcmr_bits::CMD_AUTOREFRESH | sdcmr_bits::CTB1
        } else {
            sdcmr_bits::CMD_LOAD_MODE | sdcmr_bits::CTB1 | ((0x230u32 & 0xffffu32) << 5u32)
        }
    }

    /// The JEDEC power-up sequence of `sdram_init_sequence` for bank 1, as
    /// ordered steps: SDCR1, SDTR1, then the eleven commands of
    /// `power_up_command` to SDCMR, each followed by a wait until the
    /// controller is no longer busy (SDSR BUSY, bit 5, reads 0).
    pub open spec fn power_up_steps(config: SdramConfig, timing: SdramTiming) -> Seq<regs::Step> {
        seq![
            regs::Step::Write { addr: (FMC_BASE + reg::SDCR1) as usize, value: Self::init_sequence_sdcr(config) },
            regs::Step::Write { addr: (FMC_BASE + reg::SDTR1) as usize, value: Self::init_sequence_sdtr(timing) },
        ] + Seq::new(
            22,
            |i: int|
                if i % 2 == 0 {
                    regs::Step::Write { addr: (FMC_BASE + reg::SDCMR) as usize, value: Self::power_up_command(i / 2) }
                } else {
                    regs::Step::WaitField { addr: (FMC_BASE + reg::SDSR) as usize, pos: 5, width: 1, value: 0 }
                },
        )
    }

    /// The steps of `sdram_init_sequence`, in order (see `power_up_steps`).
    pub fn sdram_init_sequence(&self, config: &SdramConfig, timing: &SdramTiming) -> (r: Vec<regs::Step>)
        requires
            config.column_bits >= 8,
            config.row_bits >= 11,
            config.cas_latency >= 1,
            timing.load_to_active_delay >= 1,
            timing.exit_self_refresh_delay >= 1,
            timing.self_refresh_time >= 1,
            timing.row_cycle_delay >= 1,
            timing.write_recovery_time >= 1,
            timing.rp_delay >= 1,
            timing.rc_delay >= 1,
        ensures
            r@ == Self::power_up_steps(*config, *timing),
            r@.len() == 24,
            forall|i: int| 0 <= i < r@.len() ==> (#[trigger] r@[i]).well_formed(),
    {
        let sdcr = ((config.column_bits - 8) as u32) | (((config.row_bits - 11) as u32) << 2) | (
        config.data_width.bits() << 4) | (if config.internal_bank == 4 {
            sdcr_bits::NB
        } else {
            0
        }) | (((config.cas_latency - 1) as u32) << 7) | (if config.write_protection {
            sdcr_bits::WP
        } else {
            0
        }) | (if config.read_burst {
            sdcr_bits::RBURST
        } else {
            0
        }) | ((config.read_pipe as u32) << 13);
        let sdtr = ((timing.load_to_active_delay - 1) as u32) | (((timing.exit_self_refresh_delay
            - 1) as u32) << 4) | (((timing.self_refresh_time - 1) as u32) << 8) | (((
        timing.row_cycle_delay - 1) as u32) << 12) | (((timing.write_recovery_time - 1) as u32)
            << 16) | (((timing.rp_delay - 1) as u32) << 20) | (((timing.rc_delay - 1) as u32)
            << 24);
        let ghost spec_steps = Self::power_up_steps(*config, *timing);
        let mut r: Vec<regs::Step> = Vec::new();
        r.push(regs::Step::Write { addr: FMC_BASE + reg::SDCR1, value: sdcr });
        r.push(regs::Step::Write { addr: FMC_BASE + reg::SDTR1, value: sdtr });
        let mut k: usize = 0;
        while k < 11
            invariant
                k <= 11,
                spec_steps == Self::power_up_steps(*config, *timing),
                r@.len() == 2 + 2 * k,
                forall|j: int| 0 <= j < r@.len() ==> #[trigger] r@[j] == spec_steps[j],
            decreases 11 - k,
        {
            let cmd = if k == 0 {
                self.sdram_clock_enable()
            } else if k == 1 {
                self.sdram_precharge_all()
            } else if k < 10 {
                self.sdram_auto_refresh()
            } else {
                self.sdram_load_mode_register(0x0230)
            };
            r.push(regs::Step::Write { addr: FMC_BASE + reg::SDCMR, value: cmd });
            r.push(regs::Step::WaitField { addr: FMC_BASE + reg::SDSR, pos: 5, width: 1, value: 0 });
            k = k + 1;
        }
        assert(r@ =~= spec_steps);
        r
    }

    /// Offset of register `first` of the NAND bank `bank` (the bank 2 and
    /// bank 3 register sets are 0x20 apart).
    pub open spec fn nand_reg(bank: NandBank, first: usize) -> usize {
        (first + (bank.value() - 2) * 0x20) as usize
    }

    /// Offset of register `first` of the bank 2 set for NAND bank `bank`:
    /// `get_nand_status` reads `reg::SR2` and `get_ecc` reads `reg::ECCR2`
    /// through it.
    pub fn nand_register(&self, bank: NandBank, first: usize) -> (r: usize)
        requires
            first <= reg::PIO4,
        ensures
            r == Self::nand_reg(bank, first),
    {
        first + (bank.bits() as usize - 2) * 0x20
    }

    /// The writes of `init_nand` (after enabling the FMC clock): PCR, PMEM and
    /// PATT of `bank`.
    pub fn init_nand(&self, bank: NandBank, config: &NandConfig, timing: &NandTiming) -> (r: [RegisterWrite; 3])
        ensures
            r[0] == (RegisterWrite {
                offset: Self::nand_reg(bank, reg::PCR2),
                value: (regs::flag(config.wait_feature) << 1) | (1u32 << 3) | (config.memory_type.value() << 4)
                    | (regs::flag(config.ecc_enable) << 6) | ((config.page_size as u32) << 17),
            }),
            r[1] == (RegisterWrite {
                offset: Self::nand_reg(bank, reg::PMEM2),
                value: (timing.mem_setup as u32) | ((timing.mem_wait as u32) << 8) | ((timing.mem_hold as u32) << 16)
                    | ((timing.mem_hiz as u32) << 24),
            }),
            r[2] == (RegisterWrite {
                offset: Self::nand_reg(bank, reg::PATT2),
                value: (timing.common_setup as u32) | ((timing.common_wait as u32) << 8) | ((timing.common_hold as u32) << 16)
                    | ((timing.common_hiz as u32) << 24),
            }),
    {
        let k = (bank.bits() as usize - 2) * 0x20;
        let pcr = (flag_bits(config.wait_feature) << 1) | (1u32 << 3) | (config.memory_type.bits() << 4)
            | (flag_bits(config.ecc_enable) << 6) | ((config.page_size as u32) << 17);
        let pmem = (timing.mem_setup as u32) | ((timing.mem_wait as u32) << 8) | ((timing.mem_hold as u32) << 16)
            | ((timing.mem_hiz as u32) << 24);
        let patt = (timing.common_setup as u32) | ((timing.common_wait as u32) << 8) | ((timing.common_hold as u32) << 16)
            | ((timing.common_hiz as u32) << 24);
        [
            RegisterWrite { offset: reg::PCR2 + k, value: pcr },
            RegisterWrite { offset: reg::PMEM2 + k, value: pmem },
            RegisterWrite { offset: reg::PATT2 + k, value: patt },
        ]
    }

    /// PCR with the NAND bank enabled (PBKEN, bit 0).
    pub fn enable_nand_bank(&self, pcr: u32) -> (r: u32)
        ensures
            r == regs::with_bit(pcr, 0, true),
    {
        set_bit(pcr, 0)
    }

    /// PCR with the NAND bank disabled: PBKEN (bit 0) cleared.
    pub fn disable_nand_bank(&self, pcr: u32) -> (r: u32)
        ensures
            r == regs::with_bit(pcr, 0, false),
    {
        clear_bit(pcr, 0)
    }

    /// Whether the NAND status register reports ready (bit 6).
    pub fn is_nand_ready(&self, sr: u32) -> (r: bool)
        ensures
            r == regs::bit(sr, 6),
    {
        test_bit(sr, 6)
    }

    /// Address of byte `addr` of NAND bank `bank`: the windows start at
    /// FMC_NAND_BANK2_BASE and are 0x0400_0000 apart.
    pub fn nand_address(&self, bank: NandBank, addr: u32) -> (r: usize)
        requires
            FMC_NAND_BANK2_BASE + (bank.value() - 2) * 0x0400_0000 + addr <= usize::MAX,
        ensures
            r == FMC_NAND_BANK2_BASE + (bank.value() - 2) * 0x0400_0000 + addr,
    {
        FMC_NAND_BANK2_BASE + (bank.bits() as usize - 2) * 0x0400_0000 + addr as usize
    }

}

/// Configuration preset: 16-bit asynchronous SRAM.
pub fn config_nor_16bit_sram() -> (r: NorConfig)
    ensures
        r == (NorConfig { memory_type: MemoryType::Sram, data_width: DataWidth::Bits16, burst_mode: BurstMode::Disabled, wait_signal_polarity: WaitSignalPolarity::ActiveLow, wait_config: WaitConfig::DuringWaitState, write_enable: true, wait_enable: false, ext_mode: ExtendedMode::Disabled, async_wait: false, write_burst: WriteBurst::Single, continuous_clock: false }),
{
    NorConfig { memory_type: MemoryType::Sram, data_width: DataWidth::Bits16, burst_mode: BurstMode::Disabled, wait_signal_polarity: WaitSignalPolarity::ActiveLow, wait_config: WaitConfig::DuringWaitState, write_enable: true, wait_enable: false, ext_mode: ExtendedMode::Disabled, async_wait: false, write_burst: WriteBurst::Single, continuous_clock: false }
}

/// Configuration preset: 16-bit PSRAM (CellularRAM) in burst mode.
pub fn config_nor_16bit_psram() -> (r: NorConfig)
    ensures
        r == (NorConfig { memory_type: MemoryType::Psram, data_width: DataWidth::Bits16, burst_mode: BurstMode::Enabled, wait_signal_polarity: WaitSignalPolarity::ActiveLow, wait_config: WaitConfig::DuringWaitState, write_enable: true, wait_enable: true, ext_mode: ExtendedMode::Disabled, async_wait: false, write_burst: WriteBurst::Burst, continuous_clock: true }),
{
    NorConfig { memory_type: MemoryType::Psram, data_width: DataWidth::Bits16, burst_mode: BurstMode::Enabled, wait_signal_polarity: WaitSignalPolarity::ActiveLow, wait_config: WaitConfig::DuringWaitState, write_enable: true, wait_enable: true, ext_mode: ExtendedMode::Disabled, async_wait: false, write_burst: WriteBurst::Burst, continuous_clock: true }
}

/// Configuration preset: 16-bit synchronous burst NOR flash.
pub fn config_nor_sync_burst() -> (r: NorConfig)
    ensures
        r == (NorConfig { memory_type: MemoryType::Nor, data_width: DataWidth::Bits16, burst_mode: BurstMode::Enabled, wait_signal_polarity: WaitSignalPolarity::ActiveLow, wait_config: WaitConfig::DuringWaitState, write_enable: true, wait_enable: true, ext_mode: ExtendedMode::Disabled, async_wait: false, write_burst: WriteBurst::Burst, continuous_clock: true }),
{
    NorConfig { memory_type: MemoryType::Nor, data_width: DataWidth::Bits16, burst_mode: BurstMode::Enabled, wait_signal_polarity: WaitSignalPolarity::ActiveLow, wait_config: WaitConfig::DuringWaitState, write_enable: true, wait_enable: true, ext_mode: ExtendedMode::Disabled, async_wait: false, write_burst: WriteBurst::Burst, continuous_clock: true }
}

/// Configuration preset: 16-bit, 256 Mbit SDRAM (9 column bits, 12 row bits, 4 banks, CAS 2).
pub fn config_sdram_16bit_256mbit() -> (r: SdramConfig)
    ensures
        r == (SdramConfig { column_bits: 9, row_bits: 12, data_width: DataWidth::Bits16, internal_bank: 4, cas_latency: 2, write_protection: false, read_burst: true, read_pipe: 0 }),
{
    SdramConfig { column_bits: 9, row_bits: 12, data_width: DataWidth::Bits16, internal_bank: 4, cas_latency: 2, write_protection: false, read_burst: true, read_pipe: 0 }
}

/// Configuration preset: SDRAM timing for a 100 MHz SDRAM clock.
pub fn config_sdram_timing_100mhz() -> (r: SdramTiming)
    ensures
        r == (SdramTiming { load_to_active_delay: 2, exit_self_refresh_delay: 7, self_refresh_time: 4, row_cycle_delay: 7, write_recovery_time: 2, rp_delay: 2, rc_delay: 2 }),
{
    SdramTiming { load_to_active_delay: 2, exit_self_refresh_delay: 7, self_refresh_time: 4, row_cycle_delay: 7, write_recovery_time: 2, rp_delay: 2, rc_delay: 2 }
}

/// Configuration preset: 8-bit NAND flash with 512-byte pages.
pub fn config_nand_8bit_512() -> (r: NandConfig)
    ensures
        r == (NandConfig { memory_type: NandMemoryType::Nand8, ecc_size: NandEccSize::ECC4, ecc_enable: true, page_size: 4, wait_feature: true, ce_control: true }),
{
    NandConfig { memory_type: NandMemoryType::Nand8, ecc_size: NandEccSize::ECC4, ecc_enable: true, page_size: 4, wait_feature: true, ce_control: true }
}

/// Configuration preset: Default NAND timing.
pub fn config_nand_timing_default() -> (r: NandTiming)
    ensures
        r == (NandTiming { mem_setup: 1, mem_wait: 5, mem_hold: 1, mem_hiz: 1, common_setup: 1, common_wait: 5, common_hold: 1, common_hiz: 1 }),
{
    NandTiming { mem_setup: 1, mem_wait: 5, mem_hold: 1, mem_hiz: 1, common_setup: 1, common_wait: 5, common_hold: 1, common_hiz: 1 }
}

/// Configuration preset: NOR timing for a 100 MHz HCLK.
pub fn timing_100mhz_nor() -> (r: Timing)
    ensures
        r == (Timing { address_setup: 1, address_hold: 1, data_setup: 2, bus_turn: 1, clk_div: 2, data_latency: 2, access_mode: 0 }),
{
    Timing { address_setup: 1, address_hold: 1, data_setup: 2, bus_turn: 1, clk_div: 2, data_latency: 2, access_mode: 0 }
}

/// Configuration preset: NOR timing for a 60 MHz HCLK.
pub fn timing_60mhz_nor() -> (r: Timing)
    ensures
        r == (Timing { address_setup: 1, address_hold: 1, data_setup: 3, bus_turn: 1, clk_div: 2, data_latency: 1, access_mode: 0 }),
{
    Timing { address_setup: 1, address_hold: 1, data_setup: 3, bus_turn: 1, clk_div: 2, data_latency: 1, access_mode: 0 }
}

/// The default `NorConfig`.
pub fn config_nor_default() -> (r: NorConfig)
    ensures
        r == (NorConfig { memory_type: MemoryType::Sram, data_width: DataWidth::Bits16, burst_mode: BurstMode::Disabled, wait_signal_polarity: WaitSignalPolarity::ActiveLow, wait_config: WaitConfig::DuringWaitState, write_enable: true, wait_enable: false, ext_mode: ExtendedMode::Disabled, async_wait: false, write_burst: WriteBurst::Single, continuous_clock: false }),
{
    NorConfig::default()
}

/// The default `SdramConfig`.
pub fn config_sdram_default() -> (r: SdramConfig)
    ensures
        r == (SdramConfig { column_bits: 8, row_bits: 12, data_width: DataWidth::Bits16, internal_bank: 4, cas_latency: 2, write_protection: false, read_burst: true, read_pipe: 0 }),
{
    SdramConfig::default()
}

/// The default `NandConfig`.
pub fn config_nand_default() -> (r: NandConfig)
    ensures
        r == (NandConfig { memory_type: NandMemoryType::Nand8, ecc_size: NandEccSize::ECC4, ecc_enable: true, page_size: 4, wait_feature: true, ce_control: true }),
{
    NandConfig::default()
}

proof fn lemma_sdcr_fields(a: u32, b: u32, w: u32, n: u32, c: u32, wp: u32, rb: u32, rp: u32, x: u32)
    requires
        a <= 3,
        b <= 3,
        w <= 1,
        n <= 1,
        c <= 3,
        wp <= 1,
        rb <= 1,
        rp <= 3,
        x == a | (b << 2u32) | (w << 4u32) | (n << 6u32) | (c << 7u32) | (wp << 9u32) | (rb << 12u32) | (rp << 13u32),
    ensures
        regs::field(x, 0, 2) == a,
        regs::field(x, 2, 2) == b,
        regs::field(x, 4, 2) == w,
        regs::bit(x, 6) == (n == 1),
        regs::field(x, 7, 2) == c,
        regs::bit(x, 9) == (wp == 1),
        regs::bit(x, 12) == (rb == 1),
        regs::field(x, 13, 2) == rp,
{
    assert({
        &&& (x >> 0u32) & 3u32 == a
        &&& (x >> 2u32) & 3u32 == b
        &&& (x >> 4u32) & 3u32 == w
        &&& (((x >> 6u32) & 1u32) == 1u32) == (n == 1u32)
        &&& (x >> 7u32) & 3u32 == c
        &&& (((x >> 9u32) & 1u32) == 1u32) == (wp == 1u32)
        &&& (((x >> 12u32) & 1u32) == 1u32) == (rb == 1u32)
        &&& (x >> 13u32) & 3u32 == rp
    }) by (bit_vector)
        requires
            a <= 3,
            b <= 3,
            w <= 1,
            n <= 1,
            c <= 3,
            wp <= 1,
            rb <= 1,
            rp <= 3,
            x == a | (b << 2u32) | (w << 4u32) | (n << 6u32) | (c << 7u32) | (wp << 9u32) | (rb << 12u32) | (rp << 13u32),
    ;
}

/// The SDRAM control word of `init_sdram` holds each setting in its own
/// field, for every configuration in the documented ranges (8-11 column
/// bits, 11-13 row bits, 2 or 4 internal banks, CAS latency 1-3, read pipe
/// delay 0-2): column bits − 8 in NC (bits 0-1), row bits − 11 in NR (bits
/// 2-3), the data width (8 bits 0, 16 bits 1) in MWID (bits 4-5), NB (bit 6)
/// set exactly for four banks, CAS latency − 1 in CAS (bits 7-8), WP (bit 9)
/// for write protection, RBURST (bit 12) for read bursts and the read pipe
/// delay in RPIPE (bits 13-14).
pub proof fn lemma_sdram_control_fields(config: SdramConfig)
    requires
        8 <= config.column_bits <= 11,
        11 <= config.row_bits <= 13,
        config.internal_bank == 2 || config.internal_bank == 4,
        1 <= config.cas_latency <= 3,
        config.read_pipe <= 2,
    ensures
        regs::field(Fmc::sdram_sdcr(config), 0, 2) == config.column_bits - 8,
        regs::field(Fmc::sdram_sdcr(config), 2, 2) == config.row_bits - 11,
        regs::field(Fmc::sdram_sdcr(config), 4, 2) == match config.data_width {
            DataWidth::Bits8 => 0u32,
            DataWidth::Bits16 => 1u32,
        },
        regs::bit(Fmc::sdram_sdcr(config), 6) == (config.internal_bank == 4),
        regs::field(Fmc::sdram_sdcr(config), 7, 2) == config.cas_latency - 1,
        regs::bit(Fmc::sdram_sdcr(config), 9) == config.write_protection,
        regs::bit(Fmc::sdram_sdcr(config), 12) == config.read_burst,
        regs::field(Fmc::sdram_sdcr(config), 13, 2) == config.read_pipe,
        Fmc::init_sequence_sdcr(config) == Fmc::sdram_sdcr(config),
{
    lemma_sdcr_constants();
    let a = (config.column_bits - 8) as u32;
    let b = (config.row_bits - 11) as u32;
    let w = config.data_width.value();
    let n = (config.internal_bank / 2 - 1) as u32;
    let c = (config.cas_latency - 1) as u32;
    let wp = regs::flag(config.write_protection);
    let rb = regs::flag(config.read_burst);
    let rp = config.read_pipe as u32;
    assert(n <= 1 && (n == 1) == (config.internal_bank == 4));
    lemma_sdcr_fields(a, b, w, n, c, wp, rb, rp, Fmc::sdram_sdcr(config));
    assert(Fmc::init_sequence_sdcr(config) == a | (b << 2u32) | (w << 4u32) | (n << 6u32) | (c << 7u32) | (wp << 9u32) | (rb << 12u32) | (rp << 13u32));
}

/// The values of the SDCR bit constants that `init_sequence_sdcr` uses.
proof fn lemma_sdcr_constants()
    ensures
        sdcr_bits::NB == 1u32 << 6u32,
        sdcr_bits::WP == 1u32 << 9u32,
        sdcr_bits::RBURST == 1u32 << 12u32,
        0u32 << 6u32 == 0u32,
        0u32 << 9u32 == 0u32,
        0u32 << 12u32 == 0u32,
{
    assert(0u32 << 6u32 == 0u32 && 0u32 << 9u32 == 0u32 && 0u32 << 12u32 == 0u32) by (bit_vector);
}

} // verus!
