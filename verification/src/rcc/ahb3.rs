use vstd::prelude::*;

verus! {

/// Flexible memory controller
pub const FMC: u32 = 1 << 0;
/// OctoSPI1
pub const OCTOSPI1: u32 = 1 << 1;
/// OctoSPI2
pub const OCTOSPI2: u32 = 1 << 2;
/// SDMMC1 / SD/SDIO/MMC 1
pub const SDMMC1: u32 = 1 << 4;
/// SDMMC2 / SD/SDIO/MMC 2
pub const SDMMC2: u32 = 1 << 5;
/// LCD-TFT display controller
pub const LTDC: u32 = 1 << 8;
/// Digital camera interface
pub const DCMI: u32 = 1 << 10;
/// PSSI
pub const PSSI: u32 = 1 << 12;

} // verus!
