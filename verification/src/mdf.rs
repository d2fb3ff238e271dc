//! MDF - Multi-Function Digital Filter
//!
//! ## Features
//! - Six filter units (F0-F5)
//! - SINC1 to SINC5 filters with a programmable oversampling ratio (OSR)
//! - Clock output generation
//! - DMA output
//! - Eight trigger sources
//!
//! ## Reference
//! - RM0456 Reference Manual, Chapter 41: Multi-function digital filter (MDF)
use vstd::prelude::*;
use crate::regs::{self, RegisterWrite, clear_bit, flag_bits, set_bit, set_field, test_bit};

verus! {

broadcast use regs::lemma_low_mask_value;

/// MDF1 base address
/// AHB2 bus, accessible at 0x4003_5000
pub const MDF1_BASE: usize = 0x4003_5000;
/// MDF Filter 0 base address
pub const MDF_FLT0_BASE: usize = MDF1_BASE + 0x000;
/// MDF Filter 1 base address
pub const MDF_FLT1_BASE: usize = MDF1_BASE + 0x100;
/// MDF Filter 2 base address
pub const MDF_FLT2_BASE: usize = MDF1_BASE + 0x200;
/// MDF Filter 3 base address
pub const MDF_FLT3_BASE: usize = MDF1_BASE + 0x300;
/// MDF Filter 4 base address
pub const MDF_FLT4_BASE: usize = MDF1_BASE + 0x400;
/// MDF Filter 5 base address
pub const MDF_FLT5_BASE: usize = MDF1_BASE + 0x500;

/// Filter selection
#[derive(Clone, Copy, Debug, PartialEq, Eq, Structural)]
pub enum Filter {
    /// Filter 0
    F0,
    /// Filter 1
    F1,
    /// Filter 2
    F2,
    /// Filter 3
    F3,
    /// Filter 4
    F4,
    /// Filter 5
    F5,
}

impl Filter {
    /// The register encoding of this value.
    pub open spec fn value(self) -> u32 {
        match self {
            Filter::F0 => 0u32,
            Filter::F1 => 1u32,
            Filter::F2 => 2u32,
            Filter::F3 => 3u32,
            Filter::F4 => 4u32,
            Filter::F5 => 5u32,
        }
    }

    /// The register encoding of this value.
    pub fn bits(self) -> (r: u32)
        ensures
            r == self.value(),
    {
        match self {
            Filter::F0 => 0,
            Filter::F1 => 1,
            Filter::F2 => 2,
            Filter::F3 => 3,
            Filter::F4 => 4,
            Filter::F5 => 5,
        }
    }
}

/// SINC filter order
#[derive(Clone, Copy, Debug, PartialEq, Eq, Structural)]
pub enum SincOrder {
    /// Fast SINC order
    FastSinc,
    /// SINC1 order
    Sinc1,
    /// SINC2 order
    Sinc2,
    /// SINC3 order
    Sinc3,
    /// SINC4 order
    Sinc4,
    /// SINC5 order
    Sinc5,
}

impl SincOrder {
    /// The register encoding of this value.
    pub open spec fn value(self) -> u32 {
        match self {
            SincOrder::FastSinc => 0u32,
            SincOrder::Sinc1 => 1u32,
            SincOrder::Sinc2 => 2u32,
            SincOrder::Sinc3 => 3u32,
            SincOrder::Sinc4 => 4u32,
            SincOrder::Sinc5 => 5u32,
        }
    }

    /// The register encoding of this value.
    pub fn bits(self) -> (r: u32)
        ensures
            r == self.value(),
    {
        match self {
            SincOrder::FastSinc => 0,
            SincOrder::Sinc1 => 1,
            SincOrder::Sinc2 => 2,
            SincOrder::Sinc3 => 3,
            SincOrder::Sinc4 => 4,
            SincOrder::Sinc5 => 5,
        }
    }
}

/// Clock output prescaler
#[derive(Clone, Copy, Debug, PartialEq, Eq, Structural)]
pub enum CkoPrescaler {
    /// Clock divide by 1
    Div1,
    /// Clock divide by 2
    Div2,
    /// Clock divide by 4
    Div4,
    /// Clock divide by 8
    Div8,
    /// Clock divide by 16
    Div16,
    /// Clock divide by 32
    Div32,
    /// Clock divide by 64
    Div64,
    /// Clock divide by 128
    Div128,
}

impl CkoPrescaler {
    /// The register encoding of this value.
    pub open spec fn value(self) -> u32 {
        match self {
            CkoPrescaler::Div1 => 0u32,
            CkoPrescaler::Div2 => 1u32,
            CkoPrescaler::Div4 => 2u32,
            CkoPrescaler::Div8 => 3u32,
            CkoPrescaler::Div16 => 4u32,
            CkoPrescaler::Div32 => 5u32,
            CkoPrescaler::Div64 => 6u32,
            CkoPrescaler::Div128 => 7u32,
        }
    }

    /// The register encoding of this value.
    pub fn bits(self) -> (r: u32)
        ensures
            r == self.value(),
    {
        match self {
            CkoPrescaler::Div1 => 0,
            CkoPrescaler::Div2 => 1,
            CkoPrescaler::Div4 => 2,
            CkoPrescaler::Div8 => 3,
            CkoPrescaler::Div16 => 4,
            CkoPrescaler::Div32 => 5,
            CkoPrescaler::Div64 => 6,
            CkoPrescaler::Div128 => 7,
        }
    }
}

/// Clock output source
#[derive(Clone, Copy, Debug, PartialEq, Eq, Structural)]
pub enum CkoSrc {
    /// Clock output 0
    Cko0,
    /// Clock output 1
    Cko1,
    /// Clock output 2
    Cko2,
    /// Clock output 3
    Cko3,
    /// Clock output 4
    Cko4,
    /// Clock output 5
    Cko5,
}

impl CkoSrc {
    /// The register encoding of this value.
    pub open spec fn value(self) -> u32 {
        match self {
            CkoSrc::Cko0 => 0u32,
            CkoSrc::Cko1 => 1u32,
            CkoSrc::Cko2 => 2u32,
            CkoSrc::Cko3 => 3u32,
            CkoSrc::Cko4 => 4u32,
            CkoSrc::Cko5 => 5u32,
        }
    }

    /// The register encoding of this value.
    pub fn bits(self) -> (r: u32)
        ensures
            r == self.value(),
    {
        match self {
            CkoSrc::Cko0 => 0,
            CkoSrc::Cko1 => 1,
            CkoSrc::Cko2 => 2,
            CkoSrc::Cko3 => 3,
            CkoSrc::Cko4 => 4,
            CkoSrc::Cko5 => 5,
        }
    }
}

/// Trigger source
#[derive(Clone, Copy, Debug, PartialEq, Eq, Structural)]
pub enum Trgsrc {
    /// Trigger source 0
    Trg0,
    /// Trigger source 1
    Trg1,
    /// Trigger source 2
    Trg2,
    /// Trigger source 3
    Trg3,
    /// Trigger source 4
    Trg4,
    /// Trigger source 5
    Trg5,
    /// Trigger source 6
    Trg6,
    /// Trigger source 7
    Trg7,
}

impl Trgsrc {
    /// The register encoding of this value.
    pub open spec fn value(self) -> u32 {
        match self {
            Trgsrc::Trg0 => 0u32,
            Trgsrc::Trg1 => 1u32,
            Trgsrc::Trg2 => 2u32,
            Trgsrc::Trg3 => 3u32,
            Trgsrc::Trg4 => 4u32,
            Trgsrc::Trg5 => 5u32,
            Trgsrc::Trg6 => 6u32,
            Trgsrc::Trg7 => 7u32,
        }
    }

    /// The register encoding of this value.
    pub fn bits(self) -> (r: u32)
        ensures
            r == self.value(),
    {
        match self {
            Trgsrc::Trg0 => 0,
            Trgsrc::Trg1 => 1,
            Trgsrc::Trg2 => 2,
            Trgsrc::Trg3 => 3,
            Trgsrc::Trg4 => 4,
            Trgsrc::Trg5 => 5,
            Trgsrc::Trg6 => 6,
            Trgsrc::Trg7 => 7,
        }
    }
}

/// DMA mode
#[derive(Clone, Copy, Debug, PartialEq, Eq, Structural)]
pub enum DmaMode {
    /// DMA disabled
    Disabled,
    /// DMA one-shot mode
    OneShot,
    /// DMA circular mode
    Circular,
}

impl DmaMode {
    /// The register encoding of this value.
    pub open spec fn value(self) -> u32 {
        match self {
            DmaMode::Disabled => 0u32,
            DmaMode::OneShot => 1u32,
            DmaMode::Circular => 2u32,
        }
    }

    /// The register encoding of this value.
    pub fn bits(self) -> (r: u32)
        ensures
            r == self.value(),
    {
        match self {
            DmaMode::Disabled => 0,
            DmaMode::OneShot => 1,
            DmaMode::Circular => 2,
        }
    }
}

/// Offsets of the `MdfFilterRegs` layout from a filter's base address.
/// Digital filter control register offset.
pub const DFLTCR: usize = 0x00;
/// Channel instance control register offset.
pub const DFLTCICR: usize = 0x04;
/// Mode register offset.
pub const DFLTMDR: usize = 0x0C;
/// Interrupt enable register offset.
pub const DFLTIER: usize = 0x14;
/// Interrupt status register offset.
pub const DFLTISR: usize = 0x18;
/// Interrupt flag register offset.
pub const DFLTIFR: usize = 0x20;
/// Integrator counter register offset.
pub const DFLTINCR: usize = 0x28;
/// Scale and offset control register offset.
pub const DFLTRSFCR: usize = 0x30;
/// Right-aligned output register offset.
pub const DFLTOUTR: usize = 0x3C;
/// Raw data register offset.
pub const DFLTRDHR: usize = 0x40;
/// Output data register offset.
pub const DFLTOUTDR: usize = 0x4C;
/// Trigger control register offset.
pub const DFLTRGCR: usize = 0x5C;
/// Global status register offset.
pub const DFLTGSR: usize = 0x6C;
/// Output level detector control register offset.
pub const DFLTOLDCR: usize = 0x9C;
/// Output level detector value register offset.
pub const DFLTOLDVAL: usize = 0xA0;
/// Output level detector minimum register offset.
pub const DFLTOLDMIN: usize = 0xA4;
/// Output level detector maximum register offset.
pub const DFLTOLDMAX: usize = 0xA8;
/// Offset of the clock generator control register from `MDF1_BASE`.
pub const CKGCR: usize = 0x04;

/// MDF Filter Register Map
pub struct MdfFilterRegs {
    /// Digital Filter Control Register
    pub dfltcr: u32,
    /// Digital Filter Channel Instance Control Register
    pub dfltcicr: u32,
    /// Digital Filter MICSFILT Control Register
    pub dfltmsicr: u32,
    /// Digital Filter Mode Register
    pub dfltmdr: u32,
    /// Digital Filter Duration Register
    pub dfltdur: u32,
    /// Digital Filter Interrupt Enable Register
    pub dfltier: u32,
    /// Digital Filter Interrupt Status Register
    pub dfltisr: u32,
    /// Digital Filter Status Interrupt Flag Register
    pub dfltsifr: u32,
    /// Digital Filter Interrupt Flag Register
    pub dfltifr: u32,
    /// Reserved
    reserved1: u32,
    /// Digital Filter INCIR Register
    pub dfltincr: u32,
    /// Reserved
    reserved2: u32,
    /// Digital Filter RSFCL Control Register
    pub dfltrsfcr: u32,
    /// Reserved
    reserved3: [u32; 2],
    /// Digital Filter Output Right Data Register
    pub dfltoutr: u32,
    /// Digital Filter Output Right Host Data Register
    pub dfltrdhr: u32,
    /// Reserved
    reserved4: [u32; 2],
    /// Digital Filter Output Data Register
    pub dfltoutdr: u32,
    /// Reserved
    reserved5: [u32; 3],
    /// Digital Filter Trigger Control Register
    pub dfltrgcr: u32,
    /// Reserved
    reserved6: [u32; 3],
    /// Digital Filter Global Status Register
    pub dfltgsr: u32,
    /// Reserved
    reserved7: [u32; 11],
    /// Digital Filter Output Level Detector Control Register
    pub dfltoldcr: u32,
    /// Digital Filter Output Level Detector Value Register
    pub dfltoldval: u32,
    /// Digital Filter Output Level Detector Minimum Register
    pub dfltoldmin: u32,
    /// Digital Filter Output Level Detector Maximum Register
    pub dfltoldmax: u32,
}

/// MDF Common Register Map
pub struct MdfCommonRegs {
    /// Global Control Register
    pub gcr: u32,
    /// Clock Generator Control Register
    pub ckgcr: u32,
    /// Spare Control Register
    pub sparecr: u32,
    /// Spare Value Register
    pub spareval: u32,
    /// Filter Instance Control Register x
    pub idcr: u32,
}

/// MDF instance
pub struct Mdf;

/// Filter configuration
#[derive(Clone, Copy, Debug)]
pub struct FilterConfig {
    /// SINC filter order
    pub sinc_order: SincOrder,
    /// SINC over-sampling ratio
    pub sinc_osr: u16,
    /// High-pass filter cutoff
    pub hpf_cutoff: u8,
    /// Clock output prescaler
    pub cko_prescaler: CkoPrescaler,
    /// Clock output source
    pub cko_src: CkoSrc,
    /// DMA enable
    pub dmaden: bool,
    /// DMA mode
    pub dma_mode: DmaMode,
    /// Output level detector enable
    pub old_enable: bool,
    /// Output level detector threshold
    pub old_threshold: u16,
}

impl Default for FilterConfig {
    fn default() -> (r: Self)
        ensures
            r == (FilterConfig { sinc_order: SincOrder::Sinc3, sinc_osr: 64, hpf_cutoff: 0, cko_prescaler: CkoPrescaler::Div1, cko_src: CkoSrc::Cko0, dmaden: false, dma_mode: DmaMode::Disabled, old_enable: false, old_threshold: 0 }),
    {
        FilterConfig { sinc_order: SincOrder::Sinc3, sinc_osr: 64, hpf_cutoff: 0, cko_prescaler: CkoPrescaler::Div1, cko_src: CkoSrc::Cko0, dmaden: false, dma_mode: DmaMode::Disabled, old_enable: false, old_threshold: 0 }
    }
}

pub struct ClockConfig {
    pub ckgden: bool,
    pub ckgmod: bool,
    pub ckgen: u8,
    pub ckgosr: u8,
}

impl Default for ClockConfig {
    fn default() -> (r: Self)
        ensures
            r == (ClockConfig { ckgden: false, ckgmod: false, ckgen: 0, ckgosr: 0 }),
    {
        ClockConfig { ckgden: false, ckgmod: false, ckgen: 0, ckgosr: 0 }
    }
}

impl Mdf {
    /// Create MDF instance
    pub fn new() -> (r: Self) {
        Mdf
    }

    /// Offset of a filter's register block from `MDF1_BASE`.
    pub open spec fn filter_offset_spec(filter: Filter) -> usize {
        (0x100 * filter.value()) as usize
    }

    /// Offset of a filter's register block from `MDF1_BASE`: 0x100 per
    /// filter.
    pub fn filter_offset(&self, filter: Filter) -> (r: usize)
        ensures
            r == Self::filter_offset_spec(filter),
    {
        match filter {
            Filter::F0 => 0x000,
            Filter::F1 => 0x100,
            Filter::F2 => 0x200,
            Filter::F3 => 0x300,
            Filter::F4 => 0x400,
            Filter::F5 => 0x500,
        }
    }

    /// Base address of a filter's register block.
    pub fn filter_base(&self, filter: Filter) -> (r: usize)
        ensures
            r == MDF1_BASE + Self::filter_offset_spec(filter),
    {
        MDF1_BASE + self.filter_offset(filter)
    }

    /// RCC word at offset 0xD8 with the MDF clock enabled (bit 25).
    pub fn enable_clock(&self, ahb1enr: u32) -> (r: u32)
        ensures
            r == regs::with_bit(ahb1enr, 25, true),
    {
        set_bit(ahb1enr, 25)
    }

    /// RCC word at offset 0xD8 with the MDF clock disabled (bit 25).
    pub fn disable_clock(&self, ahb1enr: u32) -> (r: u32)
        ensures
            r == regs::with_bit(ahb1enr, 25, false),
    {
        clear_bit(ahb1enr, 25)
    }

    /// The two words of `reset` at RCC offset 0x90: the MDF reset bit (25)
    /// asserted, then released.
    pub fn reset(&self, ahb1rstr: u32) -> (r: (u32, u32))
        ensures
            r.0 == regs::with_bit(ahb1rstr, 25, true),
            r.1 == regs::with_bit(r.0, 25, false),
    {
        let a = set_bit(ahb1rstr, 25);
        (a, clear_bit(a, 25))
    }

    /// CKGCR value of `configure_clock`: CKGDEN at bit 31, CKGMOD at bit 30,
    /// CKGEN at bit 16 and CKGOSR at bit 0.
    pub fn configure_clock(&self, config: &ClockConfig) -> (r: u32)
        ensures
            r == (regs::flag(config.ckgden) << 31u32) | (regs::flag(config.ckgmod) << 30u32) | ((config.ckgen as u32) << 16u32)
                | (config.ckgosr as u32),
    {
        (flag_bits(config.ckgden) << 31u32) | (flag_bits(config.ckgmod) << 30u32) | ((config.ckgen as u32) << 16u32)
            | (config.ckgosr as u32)
    }

    /// First DFLTCR value of `configure_filter`: SINC order at bit 13 and
    /// the oversampling ratio at bit 0.
    pub open spec fn filter_cr(config: FilterConfig) -> u32 {
        (config.sinc_order.value() << 13u32) | (config.sinc_osr as u32)
    }

    /// The writes of `configure_filter`, at the filter's registers, in order:
    /// DFLTCR, DFLTCICR (the high-pass cut-off), DFLTMDR (clock prescaler at
    /// bit 4, source at bit 0), DFLTCR again with DMAEN (bit 14) and the DMA
    /// mode (bit 12) added to the value written first, and, when the output
    /// level detector is enabled, DFLTOLDCR with its enable bit (31) and
    /// threshold.
    pub fn configure_filter(&self, filter: Filter, config: &FilterConfig) -> (r: Vec<RegisterWrite>)
        ensures
            ({
                let o = Self::filter_offset_spec(filter);
                &&& r@.len() == if config.old_enable { 5int } else { 4int }
                &&& r@[0] == (RegisterWrite { offset: (o + DFLTCR) as usize, value: Self::filter_cr(*config) })
                &&& r@[1] == (RegisterWrite { offset: (o + DFLTCICR) as usize, value: config.hpf_cutoff as u32 })
                &&& r@[2] == (RegisterWrite {
                    offset: (o + DFLTMDR) as usize,
                    value: (config.cko_prescaler.value() << 4u32) | config.cko_src.value(),
                })
                &&& r@[3] == (RegisterWrite {
                    offset: (o + DFLTCR) as usize,
                    value: Self::filter_cr(*config) | (if config.dmaden { 1u32 << 14u32 } else { 0 }) | (config.dma_mode.value() << 12u32),
                })
                &&& config.old_enable ==> r@[4] == (RegisterWrite {
                    offset: (o + DFLTOLDCR) as usize,
                    value: (1u32 << 31u32) | (config.old_threshold as u32),
                })
            }),
    {
        let o = self.filter_offset(filter);
        let cr = (config.sinc_order.bits() << 13u32) | (config.sinc_osr as u32);
        let mut r: Vec<RegisterWrite> = Vec::new();
        r.push(RegisterWrite { offset: o + DFLTCR, value: cr });
        r.push(RegisterWrite { offset: o + DFLTCICR, value: config.hpf_cutoff as u32 });
        r.push(RegisterWrite { offset: o + DFLTMDR, value: (config.cko_prescaler.bits() << 4u32) | config.cko_src.bits() });
        let dmaden_bit: u32 = if config.dmaden { 1u32 << 14u32 } else { 0 };
        r.push(RegisterWrite { offset: o + DFLTCR, value: cr | dmaden_bit | (config.dma_mode.bits() << 12u32) });
        if config.old_enable {
            r.push(RegisterWrite { offset: o + DFLTOLDCR, value: (1u32 << 31u32) | (config.old_threshold as u32) });
        }
        r
    }

    /// DFLTCR of `filter` with the filter enabled (DFLTEN, bit 31).
    pub fn enable_filter(&self, filter: Filter, dfltcr: u32) -> (r: u32)
        ensures
            r == regs::with_bit(dfltcr, 31, true),
    {
        set_bit(dfltcr, 31)
    }

    /// DFLTCR of `filter` with the filter disabled (bit 31 cleared).
    pub fn disable_filter(&self, filter: Filter, dfltcr: u32) -> (r: u32)
        ensures
            r == regs::with_bit(dfltcr, 31, false),
    {
        clear_bit(dfltcr, 31)
    }

    /// Whether DFLTCR of `filter` has the filter enabled (bit 31).
    pub fn is_filter_enabled(&self, filter: Filter, dfltcr: u32) -> (r: bool)
        ensures
            r == regs::bit(dfltcr, 31),
    {
        test_bit(dfltcr, 31)
    }

    /// The sample held in DFLTOUTDR, reinterpreted as signed.
    pub fn get_data(&self, filter: Filter, dfltoutdr: u32) -> (r: i32)
        ensures
            r == dfltoutdr as i32,
    {
        dfltoutdr as i32
    }

    /// Whether DFLTISR reports data ready (bit 0).
    pub fn is_data_available(&self, filter: Filter, dfltisr: u32) -> (r: bool)
        ensures
            r == regs::bit(dfltisr, 0),
    {
        test_bit(dfltisr, 0)
    }

    /// DFLTIFR word of `clear_data_ready`.
    pub fn clear_data_ready(&self, filter: Filter) -> (r: u32)
        ensures
            r == 1,
    {
        1
    }

    /// DFLTIER with interrupt `source` enabled.
    pub fn enable_interrupt(&self, filter: Filter, source: u8, dfltier: u32) -> (r: u32)
        requires
            source < 32,
        ensures
            r == regs::with_bit(dfltier, source as u32, true),
    {
        set_bit(dfltier, source as u32)
    }

    /// DFLTIER with interrupt `source` disabled.
    pub fn disable_interrupt(&self, filter: Filter, source: u8, dfltier: u32) -> (r: u32)
        requires
            source < 32,
        ensures
            r == regs::with_bit(dfltier, source as u32, false),
    {
        clear_bit(dfltier, source as u32)
    }

    /// Whether DFLTISR has interrupt `source` pending.
    pub fn is_interrupt_active(&self, filter: Filter, source: u8, dfltisr: u32) -> (r: bool)
        requires
            source < 32,
        ensures
            r == regs::bit(dfltisr, source as u32),
    {
        test_bit(dfltisr, source as u32)
    }

    /// DFLTIFR word of `clear_interrupt`: the bit of `source`.
    pub fn clear_interrupt(&self, filter: Filter, source: u8) -> (r: u32)
        requires
            source < 32,
        ensures
            r == 1u32 << (source as u32),
    {
        1u32 << (source as u32)
    }

    /// The output level detector value, truncated to 16 bits and signed.
    pub fn get_old_value(&self, filter: Filter, dfltoldval: u32) -> (r: i16)
        ensures
            r == dfltoldval as i16,
    {
        dfltoldval as i16
    }

    /// The output level detector minimum, truncated to 16 bits and signed.
    pub fn get_old_min(&self, filter: Filter, dfltoldmin: u32) -> (r: i16)
        ensures
            r == dfltoldmin as i16,
    {
        dfltoldmin as i16
    }

    /// The output level detector maximum, truncated to 16 bits and signed.
    pub fn get_old_max(&self, filter: Filter, dfltoldmax: u32) -> (r: i16)
        ensures
            r == dfltoldmax as i16,
    {
        dfltoldmax as i16
    }

    /// DFLTOLDCR with the counter reset requested (bit 30).
    pub fn reset_old_counters(&self, filter: Filter, dfltoldcr: u32) -> (r: u32)
        ensures
            r == regs::with_bit(dfltoldcr, 30, true),
    {
        set_bit(dfltoldcr, 30)
    }

    /// DFLTRGCR value of `configure_trigger`: the source at bit 4, the
    /// sensitivity at bit 1 and the trigger enable (bit 0).
    pub fn configure_trigger(&self, filter: Filter, trgsrc: Trgsrc, trgsens: bool) -> (r: u32)
        ensures
            r == (trgsrc.value() << 4u32) | (regs::flag(trgsens) << 1u32) | 1,
    {
        (trgsrc.bits() << 4u32) | (flag_bits(trgsens) << 1u32) | 1
    }

    /// DFLTRGCR with a software trigger requested (bit 2).
    pub fn software_trigger(&self, filter: Filter, dfltrgcr: u32) -> (r: u32)
        ensures
            r == regs::with_bit(dfltrgcr, 2, true),
    {
        set_bit(dfltrgcr, 2)
    }

    /// Whether DFLTGSR reports the trigger active (bit 0).
    pub fn is_trigger_active(&self, filter: Filter, dfltgsr: u32) -> (r: bool)
        ensures
            r == regs::bit(dfltgsr, 0),
    {
        test_bit(dfltgsr, 0)
    }

    /// The integrator counter read from DFLTINCR.
    pub fn get_raw_counter(&self, filter: Filter, dfltincr: u32) -> (r: u32)
        ensures
            r == dfltincr,
    {
        dfltincr
    }

    /// DFLTCR with continuous acquisition (bit 30) set or cleared.
    pub fn set_acquisition_mode(&self, filter: Filter, continuous: bool, dfltcr: u32) -> (r: u32)
        ensures
            r == regs::with_bit(dfltcr, 30, continuous),
    {
        if continuous {
            set_bit(dfltcr, 30)
        } else {
            clear_bit(dfltcr, 30)
        }
    }

    /// DFLTRSFCR with the scale factor (bits 0-7) replaced by `scale`.
    pub fn set_scale_factor(&self, filter: Filter, scale: u8, dfltrsfcr: u32) -> (r: u32)
        ensures
            r == regs::with_field(dfltrsfcr, 0, 8, scale as u32),
            regs::field(r, 0, 8) == scale,
    {
        proof {
            regs::lemma_with_field(dfltrsfcr, 0, 8, scale as u32);
        }
        set_field(dfltrsfcr, 0, 8, scale as u32)
    }

    /// DFLTRSFCR with the scale/offset stage (bit 31) enabled or disabled.
    pub fn enable_scale_offset(&self, filter: Filter, enable: bool, dfltrsfcr: u32) -> (r: u32)
        ensures
            r == regs::with_bit(dfltrsfcr, 31, enable),
    {
        if enable {
            set_bit(dfltrsfcr, 31)
        } else {
            clear_bit(dfltrsfcr, 31)
        }
    }

    /// DFLTRSFCR with the offset (bits 16-31) replaced by the 16-bit pattern
    /// of `offset`.
    pub fn set_offset(&self, filter: Filter, offset: i16, dfltrsfcr: u32) -> (r: u32)
        ensures
            r == (dfltrsfcr & !0xFFFF_0000u32) | ((offset as u32) << 16u32),
    {
        (dfltrsfcr & !0xFFFF_0000u32) | ((offset as u32) << 16u32)
    }

    /// The right-aligned sample in DFLTOUTR, reinterpreted as signed.
    pub fn get_data_right_aligned(&self, filter: Filter, dfltoutr: u32) -> (r: i32)
        ensures
            r == dfltoutr as i32,
    {
        dfltoutr as i32
    }

    /// The raw sample in DFLTRDHR, reinterpreted as signed.
    pub fn get_data_raw(&self, filter: Filter, dfltrdhr: u32) -> (r: i32)
        ensures
            r == dfltrdhr as i32,
    {
        dfltrdhr as i32
    }
}

} // verus!
