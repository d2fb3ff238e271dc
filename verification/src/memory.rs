//! Memory map of the STM32U5.
use vstd::prelude::*;

verus! {

/// Flash memory base address.
pub const FLASH_BASE: usize = 0x0800_0000;
/// Flash memory size of the default part, in bytes (2 MB).
pub const FLASH_SIZE: usize = 2 * 1024 * 1024;
/// SRAM1 base address.
pub const SRAM1_BASE: usize = 0x2000_0000;
/// SRAM1 size, in bytes (768 KB).
pub const SRAM1_SIZE: usize = 768 * 1024;
/// SRAM2 base address.
pub const SRAM2_BASE: usize = 0x200C_0000;
/// SRAM2 size, in bytes (64 KB).
pub const SRAM2_SIZE: usize = 64 * 1024;
/// SRAM3 base address.
pub const SRAM3_BASE: usize = 0x200D_0000;
/// SRAM3 size, in bytes (832 KB, on the parts that have it).
pub const SRAM3_SIZE: usize = 832 * 1024;
/// Backup SRAM base address.
pub const BKPSRAM_BASE: usize = 0x4002_4000;
/// Peripheral base address (secure alias).
pub const PERIPH_BASE: usize = 0x4000_0000;
/// Peripheral base address (non-secure alias).
pub const PERIPH_BASE_NS: usize = 0x5000_0000;
/// APB1 peripherals base address.
pub const APB1_PERIPH_BASE: usize = PERIPH_BASE + 0x0000;
/// APB2 peripherals base address.
pub const APB2_PERIPH_BASE: usize = PERIPH_BASE + 0x1000;
/// AHB1 peripherals base address.
pub const AHB1_PERIPH_BASE: usize = PERIPH_BASE + 0x2000;
/// AHB2 peripherals base address.
pub const AHB2_PERIPH_BASE: usize = PERIPH_BASE + 0x4000;
/// AHB3 peripherals base address.
pub const AHB3_PERIPH_BASE: usize = PERIPH_BASE + 0x6000;
/// RCC base address.
pub const RCC_BASE: usize = 0x4002_1000;
/// PWR base address.
pub const PWR_BASE: usize = 0x4002_0000;
/// Flash interface registers base address.
pub const FLASH_BASE_ADDR: usize = 0x4002_2000;

/// GPIOA base address.
pub const GPIOA_BASE: usize = AHB2_PERIPH_BASE + 0x0000;
/// GPIOB base address.
pub const GPIOB_BASE: usize = AHB2_PERIPH_BASE + 0x0400;
/// GPIOC base address.
pub const GPIOC_BASE: usize = AHB2_PERIPH_BASE + 0x0800;
/// GPIOD base address.
pub const GPIOD_BASE: usize = AHB2_PERIPH_BASE + 0x0C00;
/// GPIOE base address.
pub const GPIOE_BASE: usize = AHB2_PERIPH_BASE + 0x1000;
/// GPIOF base address.
pub const GPIOF_BASE: usize = AHB2_PERIPH_BASE + 0x1400;
/// GPIOG base address.
pub const GPIOG_BASE: usize = AHB2_PERIPH_BASE + 0x1800;
/// GPIOH base address.
pub const GPIOH_BASE: usize = AHB2_PERIPH_BASE + 0x1C00;
/// GPIOI base address.
pub const GPIOI_BASE: usize = AHB2_PERIPH_BASE + 0x2000;

} // verus!
