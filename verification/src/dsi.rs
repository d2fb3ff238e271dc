//! DSI - Display Serial Interface
//!
//! ## Features
//! Interface Type: MIPI DSI v1.1
//!
//! Video Modes:
//! - Non-burst mode with sync pulses
//! - Non-burst mode with sync events
//! - Burst mode
//!
//! Other features:
//! - Low-power mode (LPM)
//! - Ultra-low-power mode (ULPM)
//! - Tearing effect (TE)
//! - CRC
//! - ECC
//!
//! ## Reference
//! - RM0456 Reference Manual, Chapter 44: Display serial interface (DSI)
//! - RM0456 Section 44.1: DSI introduction
//! - RM0456 Section 44.2: DSI main features
//! - RM0456 Section 44.3: DSI functional description
//! - RM0456 Section 44.4: DSI registers
use vstd::prelude::*;
use crate::regs::{self, RegisterWrite, clear_bit, set_bit, set_field, test_bit};
pub mod reg;

verus! {

broadcast use regs::lemma_low_mask_value;

/// DSI base address
pub const DSI_BASE: usize = 0x4201_7000;

/// DSI Video Mode
#[derive(Clone, Copy, Debug, PartialEq, Eq, Structural)]
pub enum VideoMode {
    /// Non-burst mode with sync pulses
    NonBurstSyncPulses,
    /// Non-burst mode with sync events
    NonBurstSyncEvents,
    /// Burst mode
    Burst,
}

impl VideoMode {
    /// The register encoding of this value.
    pub open spec fn value(self) -> u32 {
        match self {
            VideoMode::NonBurstSyncPulses => 0u32,
            VideoMode::NonBurstSyncEvents => 1u32,
            VideoMode::Burst => 2u32,
        }
    }

    /// The register encoding of this value.
    pub fn bits(self) -> (r: u32)
        ensures
            r == self.value(),
    {
        match self {
            VideoMode::NonBurstSyncPulses => 0,
            VideoMode::NonBurstSyncEvents => 1,
            VideoMode::Burst => 2,
        }
    }
}

/// DSI Color Coding
#[derive(Clone, Copy, Debug, PartialEq, Eq, Structural)]
pub enum ColorCoding {
    /// RGB565
    Rgb565,
    /// RGB666 packed
    Rgb666Packed,
    /// RGB666 loosely packed
    Rgb666Loose,
    /// RGB888
    Rgb888,
}

impl ColorCoding {
    /// The register encoding of this value.
    pub open spec fn value(self) -> u32 {
        match self {
            ColorCoding::Rgb565 => 0u32,
            ColorCoding::Rgb666Packed => 1u32,
            ColorCoding::Rgb666Loose => 2u32,
            ColorCoding::Rgb888 => 3u32,
        }
    }

    /// The register encoding of this value.
    pub fn bits(self) -> (r: u32)
        ensures
            r == self.value(),
    {
        match self {
            ColorCoding::Rgb565 => 0,
            ColorCoding::Rgb666Packed => 1,
            ColorCoding::Rgb666Loose => 2,
            ColorCoding::Rgb888 => 3,
        }
    }
}

/// DSI Instance
pub struct Dsi;

impl Dsi {
    /// Create DSI instance
    pub fn new() -> (r: Self) {
        Dsi
    }

    /// HCR with the host enabled (bit 0).
    pub fn init_host(&self, hcr: u32) -> (r: u32)
        ensures
            r == regs::with_bit(hcr, 0, true),
    {
        set_bit(hcr, 0)
    }

    /// VMCR with the video mode (bits 0-1) set to `mode`.
    pub fn set_video_mode(&self, mode: VideoMode, vmcr: u32) -> (r: u32)
        ensures
            r == regs::with_field(vmcr, 0, 2, mode.value()),
            regs::field(r, 0, 2) == mode.value(),
    {
        proof {
            regs::lemma_with_field(vmcr, 0, 2, mode.value());
        }
        set_field(vmcr, 0, 2, mode.bits())
    }

    /// VPCR with the color coding (bits 0-1) set to `coding`.
    pub fn set_color_coding(&self, coding: ColorCoding, vpcr: u32) -> (r: u32)
        ensures
            r == regs::with_field(vpcr, 0, 2, coding.value()),
            regs::field(r, 0, 2) == coding.value(),
    {
        proof {
            regs::lemma_with_field(vpcr, 0, 2, coding.value());
        }
        set_field(vpcr, 0, 2, coding.bits())
    }

    /// WCR with the wrapper enabled (bit 0).
    pub fn enable(&self, wcr: u32) -> (r: u32)
        ensures
            r == regs::with_bit(wcr, 0, true),
    {
        set_bit(wcr, 0)
    }

    /// WCR with the wrapper disabled.
    pub fn disable(&self, wcr: u32) -> (r: u32)
        ensures
            r == regs::with_bit(wcr, 0, false),
    {
        clear_bit(wcr, 0)
    }

    /// WCFGR with the DPI interface enabled (bit 0).
    pub fn enable_dpi(&self, wcfgr: u32) -> (r: u32)
        ensures
            r == regs::with_bit(wcfgr, 0, true),
    {
        set_bit(wcfgr, 0)
    }

    /// WCFGR with the DPI interface disabled.
    pub fn disable_dpi(&self, wcfgr: u32) -> (r: u32)
        ensures
            r == regs::with_bit(wcfgr, 0, false),
    {
        clear_bit(wcfgr, 0)
    }

    /// The writes of `configure_video`: the active width, the active height,
    /// and the horizontal and vertical sync widths (bit 16) with their back
    /// porches (bit 0).
    pub fn configure_video(&self, h_active: u16, v_active: u16, h_sync: u16, v_sync: u16, h_back_porch: u16, v_back_porch: u16) -> (r: [RegisterWrite; 4])
        ensures
            r[0] == (RegisterWrite { offset: reg::VCCR, value: h_active as u32 }),
            r[1] == (RegisterWrite { offset: reg::VNPCR, value: v_active as u32 }),
            r[2] == (RegisterWrite { offset: reg::VHPCCR, value: ((h_sync as u32) << 16) | (h_back_porch as u32) }),
            r[3] == (RegisterWrite { offset: reg::VVPCCR, value: ((v_sync as u32) << 16) | (v_back_porch as u32) }),
    {
        [
            RegisterWrite { offset: reg::VCCR, value: h_active as u32 },
            RegisterWrite { offset: reg::VNPCR, value: v_active as u32 },
            RegisterWrite { offset: reg::VHPCCR, value: ((h_sync as u32) << 16) | (h_back_porch as u32) },
            RegisterWrite { offset: reg::VVPCCR, value: ((v_sync as u32) << 16) | (v_back_porch as u32) },
        ]
    }

    /// Whether WISR reports the wrapper ready (bit 2).
    pub fn is_ready(&self, wisr: u32) -> (r: bool)
        ensures
            r == regs::bit(wisr, 2),
    {
        test_bit(wisr, 2)
    }

    /// LPCR with low-power mode enabled (bit 0).
    pub fn enable_low_power(&self, lpcr: u32) -> (r: u32)
        ensures
            r == regs::with_bit(lpcr, 0, true),
    {
        set_bit(lpcr, 0)
    }

    /// LPCR with low-power mode disabled.
    pub fn disable_low_power(&self, lpcr: u32) -> (r: u32)
        ensures
            r == regs::with_bit(lpcr, 0, false),
    {
        clear_bit(lpcr, 0)
    }

}

/// The registers as `init_dsi_default` leaves them, given their values
/// before: host enabled, non-burst video with sync pulses, RGB888 coding,
/// DPI enabled, wrapper enabled; returned as HCR, VMCR, VPCR, WCFGR, WCR.
pub fn init_dsi_default(hcr: u32, vmcr: u32, vpcr: u32, wcfgr: u32, wcr: u32) -> (r: [RegisterWrite; 5])
    ensures
        r[0] == (RegisterWrite { offset: reg::HCR, value: regs::with_bit(hcr, 0, true) }),
        r[1] == (RegisterWrite { offset: reg::VMCR, value: regs::with_field(vmcr, 0, 2, VideoMode::NonBurstSyncPulses.value()) }),
        r[2] == (RegisterWrite { offset: reg::VPCR, value: regs::with_field(vpcr, 0, 2, ColorCoding::Rgb888.value()) }),
        r[3] == (RegisterWrite { offset: reg::WCFGR, value: regs::with_bit(wcfgr, 0, true) }),
        r[4] == (RegisterWrite { offset: reg::WCR, value: regs::with_bit(wcr, 0, true) }),
{
    let dsi = Dsi::new();
    [
        RegisterWrite { offset: reg::HCR, value: dsi.init_host(hcr) },
        RegisterWrite { offset: reg::VMCR, value: dsi.set_video_mode(VideoMode::NonBurstSyncPulses, vmcr) },
        RegisterWrite { offset: reg::VPCR, value: dsi.set_color_coding(ColorCoding::Rgb888, vpcr) },
        RegisterWrite { offset: reg::WCFGR, value: dsi.enable_dpi(wcfgr) },
        RegisterWrite { offset: reg::WCR, value: dsi.enable(wcr) },
    ]
}

} // verus!
