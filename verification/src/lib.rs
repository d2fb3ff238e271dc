//! Drivers for the STM32U5 microcontroller series, as verified register logic.
pub mod regs;
pub mod math;
pub mod info;
pub mod memory;
pub mod power;
pub mod debug;
pub mod adc;
pub mod adc4;
pub mod adf;
pub mod aes;
pub mod can;
pub mod cordic;
pub mod crc;
pub mod dac;
pub mod dcmi;
pub mod dlyb;
pub mod dsi;
pub mod exti;
pub mod fdcan;
pub mod flash;
pub mod fmac;
pub mod fmc;
pub mod gpio;
pub mod gpu2d;
pub mod gtzc;
pub mod hash;
pub mod hrtim;
pub mod hspi;
pub mod i2c;
pub mod i3c;
pub mod irtim;
pub mod jpeg;
pub mod lptim;
pub mod lpuart;
pub mod ltdc;
pub mod mdf;
pub mod opamp;
pub mod pka;
pub mod pssi;
pub mod pwr;
pub mod rcc;
pub mod rng;
pub mod rtc;
pub mod saes;
pub mod sai;
pub mod sdmmc;
pub mod smps;
pub mod tamp;
pub mod tim1_8;

use vstd::prelude::*;
use crate::rcc::ClockFrequencies;

verus! {

/// The clock frequencies once `init` has brought up power, clocks, flash
/// and GPIO: those of `rcc::init`, every bus on HSI16.
pub fn init() -> (r: ClockFrequencies)
    ensures
        r == ClockFrequencies::all(rcc::HSI16_FREQ),
{
    rcc::init()
}

/// `init_with_pll`, after `init`: the register steps that switch the system
/// clock to the 160 MHz PLL (`rcc::pll_160mhz_steps`: the flash is set to
/// four wait states before SW selects the PLL, and the sequence ends by
/// waiting for SWS to report the PLL), and the clock frequencies once they
/// have run, 160 MHz on every bus.
pub fn init_with_pll() -> (r: (ClockFrequencies, Vec<regs::Step>))
    ensures
        r.0 == ClockFrequencies::all(160_000_000),
        r.1@ == rcc::pll_160mhz_steps(),
        forall|i: int| 0 <= i < r.1@.len() ==> (#[trigger] r.1@[i]).well_formed(),
{
    let _ = rcc::init();
    (rcc::configure_pll_160mhz(), rcc::pll_160mhz_sequence())
}

/// Address of the Cortex-M application interrupt and reset control register.
pub const AIRCR: usize = 0xE000_ED0C;

/// AIRCR word of `system_reset`: the register key 0x05FA and SYSRESETREQ
/// (bit 2).
pub const AIRCR_SYSRESETREQ: u32 = 0x05FA_0004;

/// The system clock frequency.
pub fn get_sysclk_freq(clocks: &ClockFrequencies) -> (r: u32)
    ensures
        r == clocks.sysclk,
{
    rcc::get_sysclk_freq(clocks)
}

/// The AHB clock frequency.
pub fn get_hclk_freq(clocks: &ClockFrequencies) -> (r: u32)
    ensures
        r == clocks.hclk,
{
    rcc::get_hclk_freq(clocks)
}

/// The APB1 clock frequency.
pub fn get_pclk1_freq(clocks: &ClockFrequencies) -> (r: u32)
    ensures
        r == clocks.pclk1,
{
    rcc::get_pclk1_freq(clocks)
}

/// The APB2 clock frequency.
pub fn get_pclk2_freq(clocks: &ClockFrequencies) -> (r: u32)
    ensures
        r == clocks.pclk2,
{
    rcc::get_pclk2_freq(clocks)
}

/// The APB3 clock frequency.
pub fn get_pclk3_freq(clocks: &ClockFrequencies) -> (r: u32)
    ensures
        r == clocks.pclk3,
{
    rcc::get_pclk3_freq(clocks)
}

/// Core clock cycles that `delay_ms` busy-waits: `ms` milliseconds of the
/// system clock.
pub fn delay_ms(ms: u32, clocks: &ClockFrequencies) -> (r: u64)
    ensures
        r == ms * (clocks.sysclk / 1000),
{
    let per_ms: u32 = clocks.sysclk / 1000;
    assert(ms * per_ms <= u64::MAX) by (nonlinear_arith)
        requires
            ms <= u32::MAX,
            per_ms <= u32::MAX,
    ;
    ms as u64 * per_ms as u64
}

/// Core clock cycles that `delay_us` busy-waits: `us` microseconds of the
/// system clock.
pub fn delay_us(us: u32, clocks: &ClockFrequencies) -> (r: u64)
    ensures
        r == us * (clocks.sysclk / 1_000_000),
{
    let per_us: u32 = clocks.sysclk / 1_000_000;
    assert(us * per_us <= u64::MAX) by (nonlinear_arith)
        requires
            us <= u32::MAX,
            per_us <= u32::MAX,
    ;
    us as u64 * per_us as u64
}

} // verus!
