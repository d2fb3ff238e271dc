//! DCMI - Digital Camera Interface
//!
//! ## Features
//! Sync Modes:
//! - Embedded sync
//! - Line sync
//! - Frame sync
//!
//! Capture Modes:
//! - Continuous mode
//! - Snapshot mode
//!
//! Other features:
//! - Cropping
//! - JPEG capture
//! - DMA transfers
//!
//! ## Reference
//! - RM0456 Reference Manual, Chapter 41: Digital camera interface (DCMI)
//! - RM0456 Section 41.1: DCMI introduction
//! - RM0456 Section 41.2: DCMI main features
//! - RM0456 Section 41.3: DCMI functional description
//! - RM0456 Section 41.4: DCMI registers
use vstd::prelude::*;
use crate::regs::{self, RegisterWrite, clear_bit, set_bit, set_field, test_bit};
pub mod reg;
pub mod cr_bits;
pub mod sr_bits;
pub mod int_bits;

verus! {

broadcast use regs::lemma_low_mask_value;

/// DCMI base address
pub const DCMI_BASE: usize = 0x4202_C000;

/// DCMI capture mode
#[derive(Clone, Copy, Debug, PartialEq, Eq, Structural)]
pub enum CaptureMode {
    /// Continuous capture
    Continuous,
    /// Single snapshot
    Snapshot,
}

impl CaptureMode {
    /// The register encoding of this value.
    pub open spec fn value(self) -> u32 {
        match self {
            CaptureMode::Continuous => 0u32,
            CaptureMode::Snapshot => 1u32,
        }
    }

    /// The register encoding of this value.
    pub fn bits(self) -> (r: u32)
        ensures
            r == self.value(),
    {
        match self {
            CaptureMode::Continuous => 0,
            CaptureMode::Snapshot => 1,
        }
    }
}

/// DCMI synchronization mode
#[derive(Clone, Copy, Debug, PartialEq, Eq, Structural)]
pub enum SyncMode {
    /// Hardware synchronization (HSYNC/VSYNC)
    Hardware,
    /// Embedded synchronization
    Embedded,
}

impl SyncMode {
    /// The register encoding of this value.
    pub open spec fn value(self) -> u32 {
        match self {
            SyncMode::Hardware => 0u32,
            SyncMode::Embedded => 1u32,
        }
    }

    /// The register encoding of this value.
    pub fn bits(self) -> (r: u32)
        ensures
            r == self.value(),
    {
        match self {
            SyncMode::Hardware => 0,
            SyncMode::Embedded => 1,
        }
    }
}

/// DCMI pixel clock polarity
#[derive(Clone, Copy, Debug, PartialEq, Eq, Structural)]
pub enum PclkPolarity {
    /// Falling edge active
    Falling,
    /// Rising edge active
    Rising,
}

impl PclkPolarity {
    /// The register encoding of this value.
    pub open spec fn value(self) -> u32 {
        match self {
            PclkPolarity::Falling => 0u32,
            PclkPolarity::Rising => 1u32,
        }
    }

    /// The register encoding of this value.
    pub fn bits(self) -> (r: u32)
        ensures
            r == self.value(),
    {
        match self {
            PclkPolarity::Falling => 0,
            PclkPolarity::Rising => 1,
        }
    }
}

/// DCMI vertical synchronization polarity
#[derive(Clone, Copy, Debug, PartialEq, Eq, Structural)]
pub enum VsyncPolarity {
    /// Low active
    Low,
    /// High active
    High,
}

impl VsyncPolarity {
    /// The register encoding of this value.
    pub open spec fn value(self) -> u32 {
        match self {
            VsyncPolarity::Low => 0u32,
            VsyncPolarity::High => 1u32,
        }
    }

    /// The register encoding of this value.
    pub fn bits(self) -> (r: u32)
        ensures
            r == self.value(),
    {
        match self {
            VsyncPolarity::Low => 0,
            VsyncPolarity::High => 1,
        }
    }
}

/// DCMI horizontal synchronization polarity
#[derive(Clone, Copy, Debug, PartialEq, Eq, Structural)]
pub enum HsyncPolarity {
    /// Low active
    Low,
    /// High active
    High,
}

impl HsyncPolarity {
    /// The register encoding of this value.
    pub open spec fn value(self) -> u32 {
        match self {
            HsyncPolarity::Low => 0u32,
            HsyncPolarity::High => 1u32,
        }
    }

    /// The register encoding of this value.
    pub fn bits(self) -> (r: u32)
        ensures
            r == self.value(),
    {
        match self {
            HsyncPolarity::Low => 0,
            HsyncPolarity::High => 1,
        }
    }
}

/// DCMI data width
#[derive(Clone, Copy, Debug, PartialEq, Eq, Structural)]
pub enum DataWidth {
    /// 8 bits
    Bits8,
    /// 10 bits
    Bits10,
    /// 12 bits
    Bits12,
    /// 14 bits
    Bits14,
}

impl DataWidth {
    /// The register encoding of this value.
    pub open spec fn value(self) -> u32 {
        match self {
            DataWidth::Bits8 => 0b00u32,
            DataWidth::Bits10 => 0b01u32,
            DataWidth::Bits12 => 0b10u32,
            DataWidth::Bits14 => 0b11u32,
        }
    }

    /// The register encoding of this value.
    pub fn bits(self) -> (r: u32)
        ensures
            r == self.value(),
    {
        match self {
            DataWidth::Bits8 => 0b00,
            DataWidth::Bits10 => 0b01,
            DataWidth::Bits12 => 0b10,
            DataWidth::Bits14 => 0b11,
        }
    }
}

/// DCMI frame capture rate
#[derive(Clone, Copy, Debug, PartialEq, Eq, Structural)]
pub enum FrameRate {
    All,
    Half,
    Quarter,
}

impl FrameRate {
    /// The register encoding of this value.
    pub open spec fn value(self) -> u32 {
        match self {
            FrameRate::All => 0b00u32,
            FrameRate::Half => 0b01u32,
            FrameRate::Quarter => 0b10u32,
        }
    }

    /// The register encoding of this value.
    pub fn bits(self) -> (r: u32)
        ensures
            r == self.value(),
    {
        match self {
            FrameRate::All => 0b00,
            FrameRate::Half => 0b01,
            FrameRate::Quarter => 0b10,
        }
    }
}

/// DCMI configuration
#[derive(Clone, Copy, Debug)]
pub struct Config {
    pub capture_mode: CaptureMode,
    pub sync_mode: SyncMode,
    pub pclk_polarity: PclkPolarity,
    pub vsync_polarity: VsyncPolarity,
    pub hsync_polarity: HsyncPolarity,
    pub data_width: DataWidth,
    pub jpeg_mode: bool,
    pub crop_enable: bool,
    pub frame_rate: FrameRate,
}

impl Default for Config {
    fn default() -> (r: Self)
        ensures
            r == (Config { capture_mode: CaptureMode::Continuous, sync_mode: SyncMode::Hardware, pclk_polarity: PclkPolarity::Rising, vsync_polarity: VsyncPolarity::Low, hsync_polarity: HsyncPolarity::Low, data_width: DataWidth::Bits8, jpeg_mode: false, crop_enable: false, frame_rate: FrameRate::All }),
    {
        Config { capture_mode: CaptureMode::Continuous, sync_mode: SyncMode::Hardware, pclk_polarity: PclkPolarity::Rising, vsync_polarity: VsyncPolarity::Low, hsync_polarity: HsyncPolarity::Low, data_width: DataWidth::Bits8, jpeg_mode: false, crop_enable: false, frame_rate: FrameRate::All }
    }
}

/// DCMI cropping configuration
#[derive(Clone, Copy, Debug)]
pub struct CropConfig {
    /// Horizontal offset
    pub h_offset: u16,
    /// Vertical offset
    pub v_offset: u16,
    /// Capture width
    pub width: u16,
    /// Capture height
    pub height: u16,
}

/// DCMI instance
pub struct Dcmi;

impl Dcmi {
    /// Create DCMI instance
    pub fn new() -> (r: Self) {
        Dcmi
    }

    /// CR value of `init`: capture mode at bit 1, synchronization at bit 4,
    /// pixel clock polarity at bit 5, HSYNC polarity at bit 6, VSYNC polarity
    /// at bit 7, frame rate at bit 8, data width at bit 10, JPEG and CROP
    /// flags; capture and the peripheral itself stay disabled.
    pub open spec fn cr_value(config: Config) -> u32 {
        (config.capture_mode.value() << 1) | (config.sync_mode.value() << 4) | (
        config.pclk_polarity.value() << 5) | (config.vsync_polarity.value() << 7) | (
        config.hsync_polarity.value() << 6) | (config.data_width.value() << 10) | (
        config.frame_rate.value() << 8) | (if config.jpeg_mode { cr_bits::JPEG } else { 0 }) | (
        if config.crop_enable { cr_bits::CROP } else { 0 })
    }

    /// CR value that `init` writes.
    pub fn init(&self, config: &Config) -> (r: u32)
        ensures
            r == Self::cr_value(*config),
    {
        let jpeg: u32 = if config.jpeg_mode { cr_bits::JPEG } else { 0 };
        let crop: u32 = if config.crop_enable { cr_bits::CROP } else { 0 };
        (config.capture_mode.bits() << 1) | (config.sync_mode.bits() << 4) | (
        config.pclk_polarity.bits() << 5) | (config.vsync_polarity.bits() << 7) | (
        config.hsync_polarity.bits() << 6) | (config.data_width.bits() << 10) | (
        config.frame_rate.bits() << 8) | jpeg | crop
    }

    /// The writes of `configure_crop`: the window start (horizontal offset at
    /// bit 16, vertical offset at bit 0) and its size minus one (width at bit
    /// 16, height at bit 0).
    pub fn configure_crop(&self, crop: &CropConfig) -> (r: [RegisterWrite; 2])
        requires
            crop.width >= 1,
            crop.height >= 1,
        ensures
            r[0] == (RegisterWrite { offset: reg::CWSTRT, value: ((crop.h_offset as u32) << 16) | (crop.v_offset as u32) }),
            r[1] == (RegisterWrite {
                offset: reg::CWSIZE,
                value: (((crop.width - 1) as u32) << 16) | ((crop.height - 1) as u32),
            }),
    {
        [
            RegisterWrite { offset: reg::CWSTRT, value: ((crop.h_offset as u32) << 16) | (crop.v_offset as u32) },
            RegisterWrite { offset: reg::CWSIZE, value: (((crop.width - 1) as u32) << 16) | ((crop.height - 1) as u32) },
        ]
    }

    /// CR with the interface enabled (ENABLE, bit 14).
    pub fn enable(&self, cr: u32) -> (r: u32)
        ensures
            r == regs::with_bit(cr, 14, true),
    {
        set_bit(cr, 14)
    }

    /// CR with the interface disabled (bit 14 cleared).
    pub fn disable(&self, cr: u32) -> (r: u32)
        ensures
            r == regs::with_bit(cr, 14, false),
    {
        clear_bit(cr, 14)
    }

    /// CR with capture started (CAPTURE, bit 0).
    pub fn start_capture(&self, cr: u32) -> (r: u32)
        ensures
            r == regs::with_bit(cr, 0, true),
    {
        set_bit(cr, 0)
    }

    /// CR with capture stopped (bit 0 cleared).
    pub fn stop_capture(&self, cr: u32) -> (r: u32)
        ensures
            r == regs::with_bit(cr, 0, false),
    {
        clear_bit(cr, 0)
    }

    /// Whether RIS reports a captured frame (FRAME, bit 0).
    pub fn is_frame_captured(&self, ris: u32) -> (r: bool)
        ensures
            r == regs::bit(ris, 0),
    {
        test_bit(ris, 0)
    }

    /// ICR word of `clear_frame_flag`.
    pub fn clear_frame_flag(&self) -> (r: u32)
        ensures
            r == int_bits::FRAME,
    {
        int_bits::FRAME
    }

    /// IER value of `enable_interrupt`: LINE, VSYNC and FRAME as requested,
    /// every other interrupt disabled.
    pub fn enable_interrupt(&self, line_int: bool, vsync_int: bool, frame_int: bool) -> (r: u32)
        ensures
            r == (if line_int { int_bits::LINE } else { 0 }) | (if vsync_int { int_bits::VSYNC } else { 0 }) | (if frame_int { int_bits::FRAME } else { 0 }),
    {
        let l: u32 = if line_int { int_bits::LINE } else { 0 };
        let v: u32 = if vsync_int { int_bits::VSYNC } else { 0 };
        let f: u32 = if frame_int { int_bits::FRAME } else { 0 };
        l | v | f
    }

    /// Whether SR reports data in the FIFO (FNE, bit 2).
    pub fn is_data_available(&self, sr: u32) -> (r: bool)
        ensures
            r == regs::bit(sr, 2),
    {
        test_bit(sr, 2)
    }

    /// Whether SR reports data in the FIFO (FNE, bit 2); same as
    /// `is_data_available`.
    pub fn is_fifo_not_empty(&self, sr: u32) -> (r: bool)
        ensures
            r == regs::bit(sr, 2),
    {
        test_bit(sr, 2)
    }

    /// Whether SR reports the HSYNC level active (bit 0).
    pub fn is_hsync(&self, sr: u32) -> (r: bool)
        ensures
            r == regs::bit(sr, 0),
    {
        test_bit(sr, 0)
    }

    /// Whether SR reports the VSYNC level active (bit 1).
    pub fn is_vsync(&self, sr: u32) -> (r: bool)
        ensures
            r == regs::bit(sr, 1),
    {
        test_bit(sr, 1)
    }

    /// CR with the frame capture rate (FCRC, bits 8-9) set to `rate`.
    pub fn set_frame_rate(&self, rate: FrameRate, cr: u32) -> (r: u32)
        ensures
            r == regs::with_field(cr, 8, 2, rate.value()),
            regs::field(r, 8, 2) == rate.value(),
    {
        proof {
            regs::lemma_with_field(cr, 8, 2, rate.value());
        }
        set_field(cr, 8, 2, rate.bits())
    }

    /// CR with the data width (EDM, bits 10-11) set to `width`.
    pub fn set_data_width(&self, width: DataWidth, cr: u32) -> (r: u32)
        ensures
            r == regs::with_field(cr, 10, 2, width.value()),
            regs::field(r, 10, 2) == width.value(),
    {
        proof {
            regs::lemma_with_field(cr, 10, 2, width.value());
        }
        set_field(cr, 10, 2, width.bits())
    }

}

/// The CR value that `init_dcmi_ov7670` leaves: the OV7670 configuration
/// (continuous capture, hardware sync, rising pixel clock, VSYNC active high,
/// 8-bit data) with the interface enabled.
pub fn init_dcmi_ov7670() -> (r: u32)
    ensures
        r == Dcmi::cr_value(Config { capture_mode: CaptureMode::Continuous, sync_mode: SyncMode::Hardware, pclk_polarity: PclkPolarity::Rising, vsync_polarity: VsyncPolarity::High, hsync_polarity: HsyncPolarity::Low, data_width: DataWidth::Bits8, jpeg_mode: false, crop_enable: false, frame_rate: FrameRate::All }) | (1u32 << 14),
{
    let dcmi = Dcmi::new();
    let config = Config {
        capture_mode: CaptureMode::Continuous,
        sync_mode: SyncMode::Hardware,
        pclk_polarity: PclkPolarity::Rising,
        vsync_polarity: VsyncPolarity::High,
        hsync_polarity: HsyncPolarity::Low,
        data_width: DataWidth::Bits8,
        jpeg_mode: false,
        crop_enable: false,
        frame_rate: FrameRate::All,
    };
    let cr = dcmi.init(&config);
    dcmi.enable(cr)
}

/// The register writes of `init_dcmi_dma`, in order: CR with the default
/// configuration, the crop window of `width` x `height` at (0, 0) when both
/// are non-zero, IER with only the frame interrupt, CR enabled, then CR with
/// capture started.
pub fn init_dcmi_dma(frame_buffer: usize, width: u16, height: u16) -> (r: Vec<RegisterWrite>)
    ensures
        r@.len() == if width != 0 && height != 0 { 6int } else { 4int },
        r@[0] == (RegisterWrite { offset: reg::CR, value: Dcmi::cr_value(Config { capture_mode: CaptureMode::Continuous, sync_mode: SyncMode::Hardware, pclk_polarity: PclkPolarity::Rising, vsync_polarity: VsyncPolarity::Low, hsync_polarity: HsyncPolarity::Low, data_width: DataWidth::Bits8, jpeg_mode: false, crop_enable: false, frame_rate: FrameRate::All }) }),
        width != 0 && height != 0 ==> r@[1] == (RegisterWrite { offset: reg::CWSTRT, value: 0 }) && r@[2] == (RegisterWrite { offset: reg::CWSIZE, value: (((width - 1) as u32) << 16) | ((height - 1) as u32) }),
        r@[r@.len() - 3] == (RegisterWrite { offset: reg::IER, value: int_bits::FRAME }),
        r@[r@.len() - 2] == (RegisterWrite { offset: reg::CR, value: regs::with_bit(r@[0].value, 14, true) }),
        r@[r@.len() - 1] == (RegisterWrite { offset: reg::CR, value: regs::with_bit(regs::with_bit(r@[0].value, 14, true), 0, true) }),
{
    let dcmi = Dcmi::new();
    let config = Config::default();
    let mut r: Vec<RegisterWrite> = Vec::new();
    let cr = dcmi.init(&config);
    r.push(RegisterWrite { offset: reg::CR, value: cr });
    if width != 0 && height != 0 {
        let crop = CropConfig { h_offset: 0, v_offset: 0, width, height };
        let w = dcmi.configure_crop(&crop);
        r.push(w[0]);
        r.push(w[1]);
    }
    let ier = dcmi.enable_interrupt(false, false, true);
    proof {
        regs::lemma_zero_bits(int_bits::FRAME, 16);
        regs::lemma_zero_bits(0, 16);
    }
    r.push(RegisterWrite { offset: reg::IER, value: ier });
    let cr2 = dcmi.enable(cr);
    r.push(RegisterWrite { offset: reg::CR, value: cr2 });
    r.push(RegisterWrite { offset: reg::CR, value: dcmi.start_capture(cr2) });
    r
}

} // verus!
