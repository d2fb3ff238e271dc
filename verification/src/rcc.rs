//! RCC - Reset and Clock Control
//!
//! The STM32U5 RCC selects the clock sources (HSI16, HSE, MSI, LSI, LSE,
//! HSI48, PLL) and gates the clock of every peripheral.
//!
//! Clock Sources
//! - **HSI16**: 16 MHz internal oscillator (High Speed Internal)
//! - **HSE**: external oscillator (High Speed External), 4-48 MHz
//! - **MSI**: multi-speed internal oscillator, 100 kHz-48 MHz
//! - **LSI**: 32 kHz internal oscillator (Low Speed Internal)
//! - **LSE**: 32.768 kHz external oscillator (Low Speed External)
//! - **HSI48**: 48 MHz internal oscillator, for USB
//! - **PLL**: phase-locked loop, up to 160 MHz
//!
//! Bus Clocks
//! - **SYSCLK**: system clock, up to 160 MHz
//! - **HCLK**: AHB bus clock
//! - **PCLK1**: APB1 bus clock, up to 160 MHz
//! - **PCLK2**: APB2 bus clock, up to 160 MHz
//! - **PCLK3**: APB3 bus clock, up to 160 MHz
use vstd::prelude::*;
use crate::regs::{self, clear_bit, get_field, set_bit, set_field, test_bit};
pub mod reg;
pub mod ahb1;
pub mod ahb2;
pub mod ahb3;
pub mod apb1;
pub mod apb1_2;
pub mod apb2;
pub mod apb3;

verus! {

broadcast use regs::lemma_low_mask_value;

/// RCC base address
pub const RCC_BASE: usize = 0x4002_1000;

/// Clock sources
#[derive(Clone, Copy, Debug, PartialEq, Eq, Structural)]
pub enum ClockSource {
    /// High Speed Internal 16 MHz
    HSI16,
    /// High Speed External
    HSE,
    /// Multi-Speed Internal (100 kHz to 48 MHz)
    MSI,
    /// PLL clock
    PLL,
}

impl ClockSource {
    /// The register encoding of this value.
    pub open spec fn value(self) -> u32 {
        match self {
            ClockSource::HSI16 => 0u32,
            ClockSource::HSE => 1u32,
            ClockSource::MSI => 2u32,
            ClockSource::PLL => 3u32,
        }
    }

    /// The register encoding of this value.
    pub fn bits(self) -> (r: u32)
        ensures
            r == self.value(),
    {
        match self {
            ClockSource::HSI16 => 0,
            ClockSource::HSE => 1,
            ClockSource::MSI => 2,
            ClockSource::PLL => 3,
        }
    }
}


/// Frequency of the HSI16 oscillator, in Hz.
pub const HSI16_FREQ: u32 = 16_000_000;

/// PLL input divider programmed by `configure_pll_160mhz`.
pub const PLL_M: u32 = 4;

/// PLL multiplier programmed by `configure_pll_160mhz`.
pub const PLL_N: u32 = 40;

/// PLL output (R) divider programmed by `configure_pll_160mhz`.
pub const PLL_R: u32 = 1;

/// The bus clock frequencies, in Hz, as last set by `init` or
/// `configure_pll_160mhz`.
#[derive(Clone, Copy, Debug, PartialEq, Eq, Structural)]
pub struct ClockFrequencies {
    /// System clock.
    pub sysclk: u32,
    /// AHB clock.
    pub hclk: u32,
    /// APB1 clock.
    pub pclk1: u32,
    /// APB2 clock.
    pub pclk2: u32,
    /// APB3 clock.
    pub pclk3: u32,
}

impl ClockFrequencies {
    /// Every clock at `freq`.
    pub open spec fn all(freq: u32) -> ClockFrequencies {
        ClockFrequencies { sysclk: freq, hclk: freq, pclk1: freq, pclk2: freq, pclk3: freq }
    }
}

impl Default for ClockFrequencies {
    /// The frequencies at reset: everything runs from HSI16.
    fn default() -> (r: Self)
        ensures
            r == ClockFrequencies::all(HSI16_FREQ),
    {
        ClockFrequencies { sysclk: HSI16_FREQ, hclk: HSI16_FREQ, pclk1: HSI16_FREQ, pclk2: HSI16_FREQ, pclk3: HSI16_FREQ }
    }
}

/// CR with HSI16 switched on (HSION, bit 0), the first write of `init`.
pub fn hsi16_on(cr: u32) -> (r: u32)
    ensures
        r == regs::with_bit(cr, 0, true),
{
    set_bit(cr, 0)
}

/// Whether HSI16 is ready (HSIRDY, bit 1); `init` waits for it.
pub fn hsi16_ready(cr: u32) -> (r: bool)
    ensures
        r == regs::bit(cr, 1),
{
    test_bit(cr, 1)
}

/// CFGR with HSI16 selected as system clock (SW, bits 0-1, = 01).
pub fn select_hsi16(cfgr: u32) -> (r: u32)
    ensures
        r == regs::with_field(cfgr, 0, 2, 1),
        regs::field(r, 0, 2) == 1,
{
    proof {
        regs::lemma_with_field(cfgr, 0, 2, 1);
    }
    set_field(cfgr, 0, 2, 1)
}

/// Whether the system clock switch status (SWS, bits 2-3) reads HSI16;
/// `init` waits for it.
pub fn hsi16_selected(cfgr: u32) -> (r: bool)
    ensures
        r == (regs::field(cfgr, 2, 2) == 1),
{
    get_field(cfgr, 2, 2) == 1
}

/// The clock frequencies once `init` has switched to HSI16: every clock at
/// 16 MHz.
pub fn init() -> (r: ClockFrequencies)
    ensures
        r == ClockFrequencies::all(HSI16_FREQ),
{
    ClockFrequencies::default()
}

/// CR with the PLL switched off (PLL1ON, bit 24), the first write of
/// `configure_pll_160mhz`.
pub fn pll_off(cr: u32) -> (r: u32)
    ensures
        r == regs::with_bit(cr, 24, false),
{
    clear_bit(cr, 24)
}

/// CR with the PLL switched on (PLL1ON, bit 24).
pub fn pll_on(cr: u32) -> (r: u32)
    ensures
        r == regs::with_bit(cr, 24, true),
{
    set_bit(cr, 24)
}

/// Whether the PLL is locked (PLL1RDY, bit 25); `configure_pll_160mhz` waits
/// for it to clear after switching off and to set after switching on.
pub fn pll_ready(cr: u32) -> (r: bool)
    ensures
        r == regs::bit(cr, 25),
{
    test_bit(cr, 25)
}

/// PLLCFGR value of `configure_pll_160mhz`: HSI16 source (bits 0-1 = 01),
/// M − 1 at bit 4, N at bit 8, R − 1 at bit 24, and the R output enabled
/// (bit 28).
pub fn pllcfgr_160mhz() -> (r: u32)
    ensures
        r == 1u32 | (((PLL_M - 1) as u32) << 4u32) | (PLL_N << 8u32) | (((PLL_R - 1) as u32) << 24u32) | (1u32 << 28u32),
{
    1u32 | ((PLL_M - 1) << 4u32) | (PLL_N << 8u32) | ((PLL_R - 1) << 24u32) | (1u32 << 28u32)
}

/// FLASH_ACR with four wait states (LATENCY, bits 0-3), as 160 MHz needs.
pub fn flash_latency_160mhz(acr: u32) -> (r: u32)
    ensures
        r == regs::with_field(acr, 0, 4, 4),
        regs::field(r, 0, 4) == 4,
{
    proof {
        regs::lemma_with_field(acr, 0, 4, 4);
    }
    set_field(acr, 0, 4, 4)
}

/// Whether FLASH_ACR reads four wait states; `configure_pll_160mhz` waits for
/// it.
pub fn flash_latency_set(acr: u32) -> (r: bool)
    ensures
        r == (regs::field(acr, 0, 4) == 4),
{
    get_field(acr, 0, 4) == 4
}

/// CFGR with the PLL selected as system clock (SW = 11).
pub fn select_pll(cfgr: u32) -> (r: u32)
    ensures
        r == regs::with_field(cfgr, 0, 2, 3),
        regs::field(r, 0, 2) == 3,
{
    proof {
        regs::lemma_with_field(cfgr, 0, 2, 3);
    }
    set_field(cfgr, 0, 2, 3)
}

/// Whether SWS reads the PLL; `configure_pll_160mhz` waits for it.
pub fn pll_selected(cfgr: u32) -> (r: bool)
    ensures
        r == (regs::field(cfgr, 2, 2) == 3),
{
    get_field(cfgr, 2, 2) == 3
}

/// The ordered register steps of `configure_pll_160mhz`: PLL1ON cleared and
/// PLL1RDY waited for to clear; PLLCFGR written with `pllcfgr_160mhz`;
/// PLL1ON set and PLL1RDY waited for; FLASH_ACR LATENCY set to 4 and read
/// back as 4; SW set to the PLL (3), and finally SWS waited for to report
/// the PLL. So once the sequence has run, the flash has four wait states and
/// the PLL is the system clock.
pub open spec fn pll_160mhz_steps() -> Seq<regs::Step> {
    seq![
        regs::Step::SetField { addr: (RCC_BASE + reg::CR) as usize, pos: 24, width: 1, value: 0 },
        regs::Step::WaitField { addr: (RCC_BASE + reg::CR) as usize, pos: 25, width: 1, value: 0 },
        regs::Step::Write { addr: (RCC_BASE + reg::PLLCFGR) as usize, value: 1u32 | (((PLL_M - 1) as u32) << 4u32) | (PLL_N << 8u32) | (((PLL_R - 1) as u32) << 24u32) | (1u32 << 28u32) },
        regs::Step::SetField { addr: (RCC_BASE + reg::CR) as usize, pos: 24, width: 1, value: 1 },
        regs::Step::WaitField { addr: (RCC_BASE + reg::CR) as usize, pos: 25, width: 1, value: 1 },
        regs::Step::SetField { addr: (crate::flash::FLASH_BASE + crate::flash::reg::ACR) as usize, pos: 0, width: 4, value: 4 },
        regs::Step::WaitField { addr: (crate::flash::FLASH_BASE + crate::flash::reg::ACR) as usize, pos: 0, width: 4, value: 4 },
        regs::Step::SetField { addr: (RCC_BASE + reg::CFGR) as usize, pos: 0, width: 2, value: 3 },
        regs::Step::WaitField { addr: (RCC_BASE + reg::CFGR) as usize, pos: 2, width: 2, value: 3 },
    ]
}

/// The steps of `configure_pll_160mhz`, in order (see `pll_160mhz_steps`).
pub fn pll_160mhz_sequence() -> (r: Vec<regs::Step>)
    ensures
        r@ == pll_160mhz_steps(),
        forall|i: int| 0 <= i < r@.len() ==> (#[trigger] r@[i]).well_formed(),
{
    let acr = crate::flash::FLASH_BASE + crate::flash::reg::ACR;
    let r = vec![
        regs::Step::SetField { addr: RCC_BASE + reg::CR, pos: 24, width: 1, value: 0 },
        regs::Step::WaitField { addr: RCC_BASE + reg::CR, pos: 25, width: 1, value: 0 },
        regs::Step::Write { addr: RCC_BASE + reg::PLLCFGR, value: pllcfgr_160mhz() },
        regs::Step::SetField { addr: RCC_BASE + reg::CR, pos: 24, width: 1, value: 1 },
        regs::Step::WaitField { addr: RCC_BASE + reg::CR, pos: 25, width: 1, value: 1 },
        regs::Step::SetField { addr: acr, pos: 0, width: 4, value: 4 },
        regs::Step::WaitField { addr: acr, pos: 0, width: 4, value: 4 },
        regs::Step::SetField { addr: RCC_BASE + reg::CFGR, pos: 0, width: 2, value: 3 },
        regs::Step::WaitField { addr: RCC_BASE + reg::CFGR, pos: 2, width: 2, value: 3 },
    ];
    assert(r@ =~= pll_160mhz_steps());
    r
}

/// The clock frequencies once `configure_pll_160mhz` has switched to the
/// PLL: HSI16 / M × N / R on every bus, which is 160 MHz.
pub fn configure_pll_160mhz() -> (r: ClockFrequencies)
    ensures
        r == ClockFrequencies::all((HSI16_FREQ as int / PLL_M as int * PLL_N as int / PLL_R as int) as u32),
        r.sysclk == 160_000_000,
{
    let f: u32 = HSI16_FREQ / PLL_M * PLL_N / PLL_R;
    ClockFrequencies { sysclk: f, hclk: f, pclk1: f, pclk2: f, pclk3: f }
}

/// The system clock frequency.
pub fn get_sysclk_freq(clocks: &ClockFrequencies) -> (r: u32)
    ensures
        r == clocks.sysclk,
{
    clocks.sysclk
}

/// The AHB clock frequency.
pub fn get_hclk_freq(clocks: &ClockFrequencies) -> (r: u32)
    ensures
        r == clocks.hclk,
{
    clocks.hclk
}

/// The APB1 clock frequency.
pub fn get_pclk1_freq(clocks: &ClockFrequencies) -> (r: u32)
    ensures
        r == clocks.pclk1,
{
    clocks.pclk1
}

/// The APB2 clock frequency.
pub fn get_pclk2_freq(clocks: &ClockFrequencies) -> (r: u32)
    ensures
        r == clocks.pclk2,
{
    clocks.pclk2
}

/// The APB3 clock frequency.
pub fn get_pclk3_freq(clocks: &ClockFrequencies) -> (r: u32)
    ensures
        r == clocks.pclk3,
{
    clocks.pclk3
}

/// AHB1ENR with the clocks of `periph` (a mask of `ahb1` bits) enabled as well.
pub fn enable_ahb1_clock(periph: u32, ahb1enr: u32) -> (r: u32)
    ensures
        r == ahb1enr | periph,
{
    ahb1enr | periph
}

/// AHB2ENR with the clocks of `periph` (a mask of `ahb2` bits) enabled as well.
pub fn enable_ahb2_clock(periph: u32, ahb2enr: u32) -> (r: u32)
    ensures
        r == ahb2enr | periph,
{
    ahb2enr | periph
}

/// AHB3ENR with the clocks of `periph` (a mask of `ahb3` bits) enabled as well.
pub fn enable_ahb3_clock(periph: u32, ahb3enr: u32) -> (r: u32)
    ensures
        r == ahb3enr | periph,
{
    ahb3enr | periph
}

/// APB1ENR1 with the clocks of `periph` (a mask of `apb1` bits) enabled as well.
pub fn enable_apb1_clock(periph: u32, apb1enr1: u32) -> (r: u32)
    ensures
        r == apb1enr1 | periph,
{
    apb1enr1 | periph
}

/// APB2ENR with the clocks of `periph` (a mask of `apb2` bits) enabled as well.
pub fn enable_apb2_clock(periph: u32, apb2enr: u32) -> (r: u32)
    ensures
        r == apb2enr | periph,
{
    apb2enr | periph
}

/// APB3ENR with the clocks of `periph` (a mask of `apb3` bits) enabled as well.
pub fn enable_apb3_clock(periph: u32, apb3enr: u32) -> (r: u32)
    ensures
        r == apb3enr | periph,
{
    apb3enr | periph
}

} // verus!
