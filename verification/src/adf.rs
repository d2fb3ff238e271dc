//! ADF - Audio Digital Filter
//!
//! ## Features
//! SINC Filter:
//! - Sinc1 to Sinc5 orders
//! - Programmable oversampling ratio (OSR)
//! - High-pass filter (HPF)
//!
//! Clock:
//! - Clock generator with a 1-128 divider
//!
//! Output:
//! - DMA transfers
//!
//! Trigger Sources:
//! - Software and external triggers
//! - Eight trigger inputs
//!
//! Auxiliary Features:
//! - Out-of-limit detector (OLD)
//!
//! ## Reference
//! - RM0456 Reference Manual, Chapter 40: Audio digital filter (ADF)
use vstd::prelude::*;
use crate::regs::{self, RegisterWrite, clear_bit, flag_bits, set_bit, set_field, test_bit};

verus! {

broadcast use regs::lemma_low_mask_value;

/// ADF1 base address
/// AHB1 bus, accessible at 0x4004_2000
pub const ADF1_BASE: usize = 0x4004_2000;

/// Register offsets of the `AdfRegs` layout from the ADF base address.
/// Global control register offset.
pub const GCR: usize = 0x0;
/// Clock generator control register offset.
pub const CKGCR: usize = 0x4;
/// Digital filter control register offset.
pub const DFLTCR: usize = 0x20;
/// Digital filter configuration register offset.
pub const DFLTCICR: usize = 0x24;
/// Filter main data register configuration offset.
pub const DFLTMDR: usize = 0x2c;
/// Interrupt enable register offset.
pub const DFLTIER: usize = 0x34;
/// Interrupt status register offset.
pub const DFLTISR: usize = 0x38;
/// Interrupt flag clear register offset.
pub const DFLTIFR: usize = 0x40;
/// Raw input counter offset.
pub const DFLTINCR: usize = 0x48;
/// Scale and offset register offset.
pub const DFLTRSFCR: usize = 0x50;
/// Right-aligned data output register offset.
pub const DFLTOUTR: usize = 0x5c;
/// Raw data register offset.
pub const DFLTRDHR: usize = 0x60;
/// Data output register offset.
pub const DFLTOUTDR: usize = 0x6c;
/// Trigger control register offset.
pub const DFLTRGCR: usize = 0x7c;
/// Trigger status register offset.
pub const DFLTGSR: usize = 0x8c;
/// Out-of-limit detector control register offset.
pub const DFLTOLDCR: usize = 0xbc;
/// Out-of-limit detector value offset.
pub const DFLTOLDVAL: usize = 0xc0;
/// Out-of-limit detector minimum offset.
pub const DFLTOLDMIN: usize = 0xc4;
/// Out-of-limit detector maximum offset.
pub const DFLTOLDMAX: usize = 0xc8;

/// SINC filter order
#[derive(Clone, Copy, Debug, PartialEq, Eq, Structural)]
pub enum SincOrder {
    /// Fast SINC order
    FastSinc,
    /// SINC1 order
    Sinc1,
    /// SINC2 order
    Sinc2,
    /// SINC3 order
    Sinc3,
    /// SINC4 order
    Sinc4,
    /// SINC5 order
    Sinc5,
}

impl SincOrder {
    /// The register encoding of this value.
    pub open spec fn value(self) -> u32 {
        match self {
            SincOrder::FastSinc => 0u32,
            SincOrder::Sinc1 => 1u32,
            SincOrder::Sinc2 => 2u32,
            SincOrder::Sinc3 => 3u32,
            SincOrder::Sinc4 => 4u32,
            SincOrder::Sinc5 => 5u32,
        }
    }

    /// The register encoding of this value.
    pub fn bits(self) -> (r: u32)
        ensures
            r == self.value(),
    {
        match self {
            SincOrder::FastSinc => 0,
            SincOrder::Sinc1 => 1,
            SincOrder::Sinc2 => 2,
            SincOrder::Sinc3 => 3,
            SincOrder::Sinc4 => 4,
            SincOrder::Sinc5 => 5,
        }
    }
}

/// Clock output prescaler
#[derive(Clone, Copy, Debug, PartialEq, Eq, Structural)]
pub enum CkoPrescaler {
    /// Clock divide by 1
    Div1,
    /// Clock divide by 2
    Div2,
    /// Clock divide by 4
    Div4,
    /// Clock divide by 8
    Div8,
    /// Clock divide by 16
    Div16,
    /// Clock divide by 32
    Div32,
    /// Clock divide by 64
    Div64,
    /// Clock divide by 128
    Div128,
}

impl CkoPrescaler {
    /// The register encoding of this value.
    pub open spec fn value(self) -> u32 {
        match self {
            CkoPrescaler::Div1 => 0u32,
            CkoPrescaler::Div2 => 1u32,
            CkoPrescaler::Div4 => 2u32,
            CkoPrescaler::Div8 => 3u32,
            CkoPrescaler::Div16 => 4u32,
            CkoPrescaler::Div32 => 5u32,
            CkoPrescaler::Div64 => 6u32,
            CkoPrescaler::Div128 => 7u32,
        }
    }

    /// The register encoding of this value.
    pub fn bits(self) -> (r: u32)
        ensures
            r == self.value(),
    {
        match self {
            CkoPrescaler::Div1 => 0,
            CkoPrescaler::Div2 => 1,
            CkoPrescaler::Div4 => 2,
            CkoPrescaler::Div8 => 3,
            CkoPrescaler::Div16 => 4,
            CkoPrescaler::Div32 => 5,
            CkoPrescaler::Div64 => 6,
            CkoPrescaler::Div128 => 7,
        }
    }
}

/// Clock output source
#[derive(Clone, Copy, Debug, PartialEq, Eq, Structural)]
pub enum CkoSrc {
    /// Clock output 0
    Cko0,
    /// Clock output 1
    Cko1,
}

impl CkoSrc {
    /// The register encoding of this value.
    pub open spec fn value(self) -> u32 {
        match self {
            CkoSrc::Cko0 => 0u32,
            CkoSrc::Cko1 => 1u32,
        }
    }

    /// The register encoding of this value.
    pub fn bits(self) -> (r: u32)
        ensures
            r == self.value(),
    {
        match self {
            CkoSrc::Cko0 => 0,
            CkoSrc::Cko1 => 1,
        }
    }
}

/// Trigger source
#[derive(Clone, Copy, Debug, PartialEq, Eq, Structural)]
pub enum Trgsrc {
    /// Trigger source 0
    Trg0,
    /// Trigger source 1
    Trg1,
    /// Trigger source 2
    Trg2,
    /// Trigger source 3
    Trg3,
    /// Trigger source 4
    Trg4,
    /// Trigger source 5
    Trg5,
    /// Trigger source 6
    Trg6,
    /// Trigger source 7
    Trg7,
}

impl Trgsrc {
    /// The register encoding of this value.
    pub open spec fn value(self) -> u32 {
        match self {
            Trgsrc::Trg0 => 0u32,
            Trgsrc::Trg1 => 1u32,
            Trgsrc::Trg2 => 2u32,
            Trgsrc::Trg3 => 3u32,
            Trgsrc::Trg4 => 4u32,
            Trgsrc::Trg5 => 5u32,
            Trgsrc::Trg6 => 6u32,
            Trgsrc::Trg7 => 7u32,
        }
    }

    /// The register encoding of this value.
    pub fn bits(self) -> (r: u32)
        ensures
            r == self.value(),
    {
        match self {
            Trgsrc::Trg0 => 0,
            Trgsrc::Trg1 => 1,
            Trgsrc::Trg2 => 2,
            Trgsrc::Trg3 => 3,
            Trgsrc::Trg4 => 4,
            Trgsrc::Trg5 => 5,
            Trgsrc::Trg6 => 6,
            Trgsrc::Trg7 => 7,
        }
    }
}

/// DMA mode
#[derive(Clone, Copy, Debug, PartialEq, Eq, Structural)]
pub enum DmaMode {
    /// DMA disabled
    Disabled,
    /// DMA one-shot mode
    OneShot,
    /// DMA circular mode
    Circular,
}

impl DmaMode {
    /// The register encoding of this value.
    pub open spec fn value(self) -> u32 {
        match self {
            DmaMode::Disabled => 0u32,
            DmaMode::OneShot => 1u32,
            DmaMode::Circular => 2u32,
        }
    }

    /// The register encoding of this value.
    pub fn bits(self) -> (r: u32)
        ensures
            r == self.value(),
    {
        match self {
            DmaMode::Disabled => 0,
            DmaMode::OneShot => 1,
            DmaMode::Circular => 2,
        }
    }
}

/// Processing delay
#[derive(Clone, Copy, Debug, PartialEq, Eq, Structural)]
pub enum Procdly {
    /// Delay 0
    Delay0,
    /// Delay 1
    Delay1,
    /// Delay 2
    Delay2,
    /// Delay 3
    Delay3,
}

impl Procdly {
    /// The register encoding of this value.
    pub open spec fn value(self) -> u32 {
        match self {
            Procdly::Delay0 => 0u32,
            Procdly::Delay1 => 1u32,
            Procdly::Delay2 => 2u32,
            Procdly::Delay3 => 3u32,
        }
    }

    /// The register encoding of this value.
    pub fn bits(self) -> (r: u32)
        ensures
            r == self.value(),
    {
        match self {
            Procdly::Delay0 => 0,
            Procdly::Delay1 => 1,
            Procdly::Delay2 => 2,
            Procdly::Delay3 => 3,
        }
    }
}

/// ADF register structure
pub struct AdfRegs {
    /// ADF Global Control Register
    pub gcr: u32,
    /// ADF Clock Generator Control Register
    pub ckgcr: u32,
    /// ADF Spare Control Register
    pub sparecr: u32,
    /// ADF Spare Value Register
    pub spareval: u32,
    /// ADF Filter Instance Control Register x
    pub idcr: u32,
    /// Reserved
    pub reserved1: [u32; 3],
    /// ADF Digital Filter Control Register
    pub dfltcr: u32,
    /// ADF Digital Filter Channel Instance Control Register
    pub dfltcicr: u32,
    /// ADF Digital Filter MICSFILT Control Register
    pub dfltmsicr: u32,
    /// ADF Digital Filter Mode Register
    pub dfltmdr: u32,
    /// ADF Digital Filter Duration Register
    pub dfltdur: u32,
    /// ADF Digital Filter Interrupt Enable Register
    pub dfltier: u32,
    /// ADF Digital Filter Interrupt Status Register
    pub dfltisr: u32,
    /// ADF Digital Filter Status Interrupt Flag Register
    pub dfltsifr: u32,
    /// ADF Digital Filter Interrupt Flag Register
    pub dfltifr: u32,
    /// Reserved
    pub reserved2: u32,
    /// ADF Digital Filter INCIR Register
    pub dfltincr: u32,
    /// Reserved
    pub reserved3: u32,
    /// ADF Digital Filter RSFCL Control Register
    pub dfltrsfcr: u32,
    /// Reserved
    pub reserved4: [u32; 2],
    /// ADF Digital Filter Output Right Data Register
    pub dfltoutr: u32,
    /// ADF Digital Filter Output Right Host Data Register
    pub dfltrdhr: u32,
    /// Reserved
    pub reserved5: [u32; 2],
    /// ADF Digital Filter Output Data Register
    pub dfltoutdr: u32,
    /// Reserved
    pub reserved6: [u32; 3],
    /// ADF Digital Filter Trigger Control Register
    pub dfltrgcr: u32,
    pub reserved7: [u32; 3],
    pub dfltgsr: u32,
    pub reserved8: [u32; 11],
    pub dfltoldcr: u32,
    pub dfltoldval: u32,
    pub dfltoldmin: u32,
    pub dfltoldmax: u32,
}

pub struct Adf;

/// Filter configuration
#[derive(Clone, Copy, Debug)]
pub struct FilterConfig {
    /// SINC filter order
    pub sinc_order: SincOrder,
    pub sinc_osr: u16,
    pub hpf_cutoff: u8,
    pub cko_prescaler: CkoPrescaler,
    pub cko_src: CkoSrc,
    pub dmaden: bool,
    pub dma_mode: DmaMode,
    pub old_enable: bool,
    pub old_threshold: u16,
    pub procdly: Procdly,
}

impl Default for FilterConfig {
    fn default() -> (r: Self)
        ensures
            r == (FilterConfig { sinc_order: SincOrder::Sinc3, sinc_osr: 64, hpf_cutoff: 0, cko_prescaler: CkoPrescaler::Div1, cko_src: CkoSrc::Cko0, dmaden: false, dma_mode: DmaMode::Disabled, old_enable: false, old_threshold: 0, procdly: Procdly::Delay0 }),
    {
        FilterConfig { sinc_order: SincOrder::Sinc3, sinc_osr: 64, hpf_cutoff: 0, cko_prescaler: CkoPrescaler::Div1, cko_src: CkoSrc::Cko0, dmaden: false, dma_mode: DmaMode::Disabled, old_enable: false, old_threshold: 0, procdly: Procdly::Delay0 }
    }
}

pub struct ClockConfig {
    pub ckgden: bool,
    pub ckgmod: bool,
    pub ckgen: u8,
    pub ckgosr: u8,
    pub ckgfreq: u8,
}

impl Default for ClockConfig {
    fn default() -> (r: Self)
        ensures
            r == (ClockConfig { ckgden: false, ckgmod: false, ckgen: 0, ckgosr: 0, ckgfreq: 0 }),
    {
        ClockConfig { ckgden: false, ckgmod: false, ckgen: 0, ckgosr: 0, ckgfreq: 0 }
    }
}

pub struct AudioConfig {
    pub sample_rate: u32,
    pub bit_depth: u8,
    pub channels: u8,
    pub stereo_mode: bool,
}

impl Default for AudioConfig {
    fn default() -> (r: Self)
        ensures
            r == (AudioConfig { sample_rate: 48000, bit_depth: 16, channels: 2, stereo_mode: true }),
    {
        AudioConfig { sample_rate: 48000, bit_depth: 16, channels: 2, stereo_mode: true }
    }
}

impl Adf {
    /// Create new ADF instance
    pub fn new() -> (r: Self) {
        Adf
    }

    /// AHB1ENR with the ADF clock enabled (bit 24).
    pub fn enable_clock(&self, ahb1enr: u32) -> (r: u32)
        ensures
            r == regs::with_bit(ahb1enr, 24, true),
    {
        set_bit(ahb1enr, 24)
    }

    /// AHB1ENR with the ADF clock disabled (bit 24 cleared).
    pub fn disable_clock(&self, ahb1enr: u32) -> (r: u32)
        ensures
            r == regs::with_bit(ahb1enr, 24, false),
    {
        clear_bit(ahb1enr, 24)
    }

    /// The two AHB1RSTR words of `reset`: the ADF reset bit (24) asserted,
    /// then released.
    pub fn reset(&self, ahb1rstr: u32) -> (r: (u32, u32))
        ensures
            r.0 == regs::with_bit(ahb1rstr, 24, true),
            r.1 == regs::with_bit(r.0, 24, false),
    {
        let a = set_bit(ahb1rstr, 24);
        (a, clear_bit(a, 24))
    }

    /// CKGCR value of `configure_clock`: CKGDEN at bit 31, CKGMOD at bit 30,
    /// CKGEN at bit 16, CKGOSR at bit 8 and CKGFREQ at bit 0.
    pub fn configure_clock(&self, config: &ClockConfig) -> (r: u32)
        ensures
            r == (regs::flag(config.ckgden) << 31) | (regs::flag(config.ckgmod) << 30) | ((config.ckgen as u32) << 16)
                | ((config.ckgosr as u32) << 8) | (config.ckgfreq as u32),
    {
        (flag_bits(config.ckgden) << 31) | (flag_bits(config.ckgmod) << 30) | ((config.ckgen as u32) << 16)
            | ((config.ckgosr as u32) << 8) | (config.ckgfreq as u32)
    }

    /// First DFLTCR value of `configure_filter`: SINC order at bit 13, the
    /// oversampling ratio at bit 0 and the processing delay at bit 4.
    pub open spec fn filter_cr(config: FilterConfig) -> u32 {
        (config.sinc_order.value() << 13) | (config.sinc_osr as u32) | (config.procdly.value() << 4)
    }

    /// The writes of `configure_filter`, in order: DFLTCR, DFLTCICR (the
    /// high-pass cut-off), DFLTMDR (clock prescaler at bit 4, source at bit
    /// 0), DFLTCR again with DMAEN (bit 14) and the DMA mode (bit 12) added to
    /// the value written first, and, when the out-of-limit detector is
    /// enabled, DFLTOLDCR with its enable bit (31) and threshold.
    pub fn configure_filter(&self, config: &FilterConfig) -> (r: Vec<RegisterWrite>)
        ensures
            r@.len() == if config.old_enable { 5int } else { 4int },
            r@[0] == (RegisterWrite { offset: DFLTCR, value: Self::filter_cr(*config) }),
            r@[1] == (RegisterWrite { offset: DFLTCICR, value: config.hpf_cutoff as u32 }),
            r@[2] == (RegisterWrite {
                offset: DFLTMDR,
                value: (config.cko_prescaler.value() << 4) | config.cko_src.value(),
            }),
            r@[3] == (RegisterWrite {
                offset: DFLTCR,
                value: Self::filter_cr(*config) | (if config.dmaden { 1u32 << 14 } else { 0 }) | (config.dma_mode.value() << 12),
            }),
            config.old_enable ==> r@[4] == (RegisterWrite {
                offset: DFLTOLDCR,
                value: (1u32 << 31) | (config.old_threshold as u32),
            }),
    {
        let cr = (config.sinc_order.bits() << 13) | (config.sinc_osr as u32) | (config.procdly.bits() << 4);
        let mut r: Vec<RegisterWrite> = Vec::new();
        r.push(RegisterWrite { offset: DFLTCR, value: cr });
        r.push(RegisterWrite { offset: DFLTCICR, value: config.hpf_cutoff as u32 });
        r.push(RegisterWrite { offset: DFLTMDR, value: (config.cko_prescaler.bits() << 4) | config.cko_src.bits() });
        let dmaden_bit: u32 = if config.dmaden {
            1u32 << 14
        } else {
            0
        };
        r.push(RegisterWrite { offset: DFLTCR, value: cr | dmaden_bit | (config.dma_mode.bits() << 12) });
        if config.old_enable {
            r.push(RegisterWrite { offset: DFLTOLDCR, value: (1u32 << 31) | (config.old_threshold as u32) });
        }
        r
    }

    /// DFLTCR with the filter enabled (DFLTEN, bit 31).
    pub fn enable(&self, dfltcr: u32) -> (r: u32)
        ensures
            r == regs::with_bit(dfltcr, 31, true),
    {
        set_bit(dfltcr, 31)
    }

    /// DFLTCR with the filter disabled (bit 31 cleared).
    pub fn disable(&self, dfltcr: u32) -> (r: u32)
        ensures
            r == regs::with_bit(dfltcr, 31, false),
    {
        clear_bit(dfltcr, 31)
    }

    /// Whether DFLTCR has the filter enabled (bit 31).
    pub fn is_enabled(&self, dfltcr: u32) -> (r: bool)
        ensures
            r == regs::bit(dfltcr, 31),
    {
        test_bit(dfltcr, 31)
    }

    /// The sample held in DFLTOUTDR, reinterpreted as signed.
    pub fn get_data(&self, dfltoutdr: u32) -> (r: i32)
        ensures
            r == dfltoutdr as i32,
    {
        dfltoutdr as i32
    }

    /// Whether DFLTISR reports a sample ready (bit 0).
    pub fn is_data_available(&self, dfltisr: u32) -> (r: bool)
        ensures
            r == regs::bit(dfltisr, 0),
    {
        test_bit(dfltisr, 0)
    }

    /// DFLTIFR word of `clear_data_ready`: bit 0.
    pub fn clear_data_ready(&self) -> (r: u32)
        ensures
            r == 1,
    {
        1
    }

    /// DFLTIER with interrupt `source` enabled.
    pub fn enable_interrupt(&self, source: u8, dfltier: u32) -> (r: u32)
        requires
            source < 32,
        ensures
            r == regs::with_bit(dfltier, source as u32, true),
    {
        set_bit(dfltier, source as u32)
    }

    /// DFLTIER with interrupt `source` disabled.
    pub fn disable_interrupt(&self, source: u8, dfltier: u32) -> (r: u32)
        requires
            source < 32,
        ensures
            r == regs::with_bit(dfltier, source as u32, false),
    {
        clear_bit(dfltier, source as u32)
    }

    /// Whether DFLTISR has interrupt `source` pending.
    pub fn is_interrupt_active(&self, source: u8, dfltisr: u32) -> (r: bool)
        requires
            source < 32,
        ensures
            r == regs::bit(dfltisr, source as u32),
    {
        test_bit(dfltisr, source as u32)
    }

    /// DFLTIFR word of `clear_interrupt`: the bit of `source`.
    pub fn clear_interrupt(&self, source: u8) -> (r: u32)
        requires
            source < 32,
        ensures
            r == 1u32 << (source as u32),
    {
        1u32 << (source as u32)
    }

    /// The out-of-limit detector value, truncated to 16 bits and signed.
    pub fn get_old_value(&self, dfltoldval: u32) -> (r: i16)
        ensures
            r == dfltoldval as i16,
    {
        dfltoldval as i16
    }

    /// The out-of-limit detector minimum, truncated to 16 bits and signed.
    pub fn get_old_min(&self, dfltoldmin: u32) -> (r: i16)
        ensures
            r == dfltoldmin as i16,
    {
        dfltoldmin as i16
    }

    /// The out-of-limit detector maximum, truncated to 16 bits and signed.
    pub fn get_old_max(&self, dfltoldmax: u32) -> (r: i16)
        ensures
            r == dfltoldmax as i16,
    {
        dfltoldmax as i16
    }

    /// DFLTOLDCR with the counter reset requested (bit 30); `calibrate_offset`
    /// writes this and waits for the hardware to clear the bit.
    pub fn reset_old_counters(&self, dfltoldcr: u32) -> (r: u32)
        ensures
            r == regs::with_bit(dfltoldcr, 30, true),
    {
        set_bit(dfltoldcr, 30)
    }

    /// Whether a counter reset requested through bit 30 is still in progress.
    pub fn old_reset_pending(&self, dfltoldcr: u32) -> (r: bool)
        ensures
            r == regs::bit(dfltoldcr, 30),
    {
        test_bit(dfltoldcr, 30)
    }

    /// DFLTRGCR value of `configure_trigger`: the source at bit 4, the
    /// sensitivity at bit 1 and the trigger enable (bit 0).
    pub fn configure_trigger(&self, trgsrc: Trgsrc, trgsens: bool) -> (r: u32)
        ensures
            r == (trgsrc.value() << 4) | (regs::flag(trgsens) << 1) | 1,
    {
        (trgsrc.bits() << 4) | (flag_bits(trgsens) << 1) | 1
    }

    /// DFLTRGCR with a software trigger requested (bit 2).
    pub fn software_trigger(&self, dfltrgcr: u32) -> (r: u32)
        ensures
            r == regs::with_bit(dfltrgcr, 2, true),
    {
        set_bit(dfltrgcr, 2)
    }

    /// Whether DFLTGSR reports the trigger active (bit 0).
    pub fn is_trigger_active(&self, dfltgsr: u32) -> (r: bool)
        ensures
            r == regs::bit(dfltgsr, 0),
    {
        test_bit(dfltgsr, 0)
    }

    /// DFLTCR with continuous acquisition (bit 30) set or cleared.
    pub fn set_acquisition_mode(&self, continuous: bool, dfltcr: u32) -> (r: u32)
        ensures
            r == regs::with_bit(dfltcr, 30, continuous),
    {
        if continuous {
            set_bit(dfltcr, 30)
        } else {
            clear_bit(dfltcr, 30)
        }
    }

    /// DFLTRSFCR with the scale factor (bits 0-7) replaced by `scale`.
    pub fn set_scale_factor(&self, scale: u8, dfltrsfcr: u32) -> (r: u32)
        ensures
            r == regs::with_field(dfltrsfcr, 0, 8, scale as u32),
            regs::field(r, 0, 8) == scale,
    {
        proof {
            regs::lemma_with_field(dfltrsfcr, 0, 8, scale as u32);
        }
        set_field(dfltrsfcr, 0, 8, scale as u32)
    }

    /// DFLTRSFCR with the scale/offset stage (bit 31) enabled or disabled.
    pub fn enable_scale_offset(&self, enable: bool, dfltrsfcr: u32) -> (r: u32)
        ensures
            r == regs::with_bit(dfltrsfcr, 31, enable),
    {
        if enable {
            set_bit(dfltrsfcr, 31)
        } else {
            clear_bit(dfltrsfcr, 31)
        }
    }

    /// DFLTRSFCR with the offset (bits 16-31) replaced by the 16-bit pattern
    /// of `offset`.
    pub fn set_offset(&self, offset: i16, dfltrsfcr: u32) -> (r: u32)
        ensures
            r == (dfltrsfcr & !0xFFFF_0000u32) | ((offset as u32) << 16),
    {
        (dfltrsfcr & !0xFFFF_0000u32) | ((offset as u32) << 16)
    }

    /// The right-aligned sample in DFLTOUTR, reinterpreted as signed.
    pub fn get_data_right_aligned(&self, dfltoutr: u32) -> (r: i32)
        ensures
            r == dfltoutr as i32,
    {
        dfltoutr as i32
    }

    /// The raw sample in DFLTRDHR, reinterpreted as signed.
    pub fn get_data_raw(&self, dfltrdhr: u32) -> (r: i32)
        ensures
            r == dfltrdhr as i32,
    {
        dfltrdhr as i32
    }

    /// Oversampling ratio that `configure_audio` selects for a sample rate:
    /// 768, 384, 192, 136, 128 and 64 for 8, 16, 32, 44.1, 48 and 96 kHz,
    /// 128 for any other rate.
    pub open spec fn audio_osr(sample_rate: u32) -> u16 {
        if sample_rate == 8000 {
            768
        } else if sample_rate == 16000 {
            384
        } else if sample_rate == 32000 {
            192
        } else if sample_rate == 44100 {
            136
        } else if sample_rate == 48000 {
            128
        } else if sample_rate == 96000 {
            64
        } else {
            128
        }
    }

    /// The filter configuration that `configure_audio` programs (through
    /// `configure_filter`): the oversampling ratio of the sample rate, SINC2
    /// from 96 kHz up and SINC3 below, high-pass cut-off 1, CKO divided by 1
    /// from CKO0, circular DMA, no out-of-limit detector and no delay.
    pub fn configure_audio(&self, audio_config: &AudioConfig) -> (r: FilterConfig)
        ensures
            r == (FilterConfig {
                sinc_order: if audio_config.sample_rate >= 96000 { SincOrder::Sinc2 } else { SincOrder::Sinc3 },
                sinc_osr: Self::audio_osr(audio_config.sample_rate),
                hpf_cutoff: 1,
                cko_prescaler: CkoPrescaler::Div1,
                cko_src: CkoSrc::Cko0,
                dmaden: true,
                dma_mode: DmaMode::Circular,
                old_enable: false,
                old_threshold: 0,
                procdly: Procdly::Delay0,
            }),
    {
        let osr: u16 = match audio_config.sample_rate {
            8000 => 768,
            16000 => 384,
            32000 => 192,
            44100 => 136,
            48000 => 128,
            96000 => 64,
            _ => 128,
        };
        let sinc_order = if audio_config.sample_rate >= 96000 {
            SincOrder::Sinc2
        } else {
            SincOrder::Sinc3
        };
        FilterConfig {
            sinc_order,
            sinc_osr: osr,
            hpf_cutoff: 1,
            cko_prescaler: CkoPrescaler::Div1,
            cko_src: CkoSrc::Cko0,
            dmaden: true,
            dma_mode: DmaMode::Circular,
            old_enable: false,
            old_threshold: 0,
            procdly: Procdly::Delay0,
        }
    }

    /// Scale factor that `set_gain` programs: `1 << (gain_db / 6)` for a
    /// non-negative gain (one bit per 6 dB), 0 for a negative one.
    pub open spec fn gain_scale(gain_db: i8) -> u8 {
        if gain_db >= 0 {
            (1u8 << ((gain_db as u8) / 6))
        } else {
            0
        }
    }

    /// DFLTRSFCR after `set_gain`: the scale factor of `gain_scale` in bits
    /// 0-7. Gains from 48 dB up would shift the 8-bit scale out of range.
    pub fn set_gain(&self, gain_db: i8, dfltrsfcr: u32) -> (r: u32)
        requires
            gain_db < 48,
        ensures
            r == regs::with_field(dfltrsfcr, 0, 8, Self::gain_scale(gain_db) as u32),
    {
        let scale: u8 = if gain_db >= 0 {
            1u8 << ((gain_db as u8) / 6)
        } else {
            0
        };
        self.set_scale_factor(scale, dfltrsfcr)
    }

    /// Whether `read_samples` takes one more sample once `stored` samples
    /// are in a buffer of `capacity` slots and DFLTISR reads `dfltisr`: only
    /// while a slot is free and data is available (bit 0). A sample taken is
    /// read from DFLTOUTDR and acknowledged with `clear_data_ready`; the
    /// first poll that finds no data, or a full buffer, ends the read.
    pub fn read_samples_continue(&self, stored: usize, capacity: usize, dfltisr: u32) -> (r: bool)
        ensures
            r == (stored < capacity && regs::bit(dfltisr, 0)),
    {
        stored < capacity && test_bit(dfltisr, 0)
    }

    /// `read_samples`: stores the DFLTOUTDR words `samples`, read while data
    /// stayed available (at most one per slot of `buffer`), as signed samples
    /// at the start of `buffer`, leaves the rest of `buffer` unchanged, and
    /// returns how many were stored.
    pub fn read_samples(&self, buffer: &mut [i32], samples: &[u32]) -> (r: usize)
        requires
            samples@.len() <= old(buffer)@.len(),
        ensures
            r == samples@.len(),
            final(buffer)@.len() == old(buffer)@.len(),
            forall|i: int| 0 <= i < final(buffer)@.len() ==> #[trigger] final(buffer)@[i] == if i < samples@.len() {
                samples@[i] as i32
            } else {
                old(buffer)@[i]
            },
    {
        let mut i: usize = 0;
        while i < samples.len()
            invariant
                i <= samples@.len(),
                samples@.len() <= buffer@.len(),
                buffer@.len() == old(buffer)@.len(),
                forall|k: int| 0 <= k < buffer@.len() ==> #[trigger] buffer@[k] == if k < i {
                    samples@[k] as i32
                } else {
                    old(buffer)@[k]
                },
            decreases samples@.len() - i,
        {
            buffer[i] = self.get_data(samples[i]);
            i = i + 1;
        }
        i
    }

}

} // verus!
