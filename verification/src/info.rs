//! Identification of the STM32U5 series.
use vstd::prelude::*;

verus! {

/// Chip family.
pub const CHIP_FAMILY: &'static str = "STM32U5";
/// Chip vendor.
pub const CHIP_VENDOR: &'static str = "STMicroelectronics";
/// CPU core.
pub const CPU_CORE: &'static str = "Cortex-M33";
/// Highest CPU frequency, in Hz (160 MHz).
pub const CPU_FREQ_MAX: u32 = 160_000_000;
/// Largest flash memory of the series, in bytes (4 MB).
pub const FLASH_SIZE_MAX: u32 = 4 * 1024 * 1024;
/// Largest SRAM of the series, in bytes (2 MB).
pub const SRAM_SIZE_MAX: u32 = 2 * 1024 * 1024;

/// Package: LQFP, 64 pins.
pub const LQFP64: &'static str = "LQFP64";
/// Package: LQFP, 100 pins.
pub const LQFP100: &'static str = "LQFP100";
/// Package: LQFP, 144 pins.
pub const LQFP144: &'static str = "LQFP144";
/// Package: LQFP, 176 pins.
pub const LQFP176: &'static str = "LQFP176";
/// Package: UFBGA, 132 balls.
pub const UFBGA132: &'static str = "UFBGA132";
/// Package: UFBGA, 169 balls.
pub const UFBGA169: &'static str = "UFBGA169";
/// Package: WLCSP, 100 balls.
pub const WLCSP100: &'static str = "WLCSP100";
/// Package: UFBGA, 225 balls.
pub const UFBGA225: &'static str = "UFBGA225";

} // verus!
