//! LTDC - LCD-TFT Display Controller
//!
//! ## Features
//! - 24-bit RGB parallel output (RGB888)
//! - Two display layers with blending
//! - Programmable sync polarity and timings
//!
//! ## Reference
//! - RM0456 Reference Manual, Chapter 56: LCD-TFT display controller (LTDC)
use vstd::prelude::*;
use crate::regs::{self, RegisterWrite, clear_bit, set_bit, test_bit};
pub mod reg;
pub mod layer_reg;
pub mod resolutions;

verus! {

broadcast use regs::lemma_low_mask_value;

/// LTDC base address
pub const LTDC_BASE: usize = 0x4001_6800;
/// Layer 2 offset
pub const LAYER2_OFFSET: usize = 0x80;

/// LTDC layer
#[derive(Clone, Copy, Debug, PartialEq, Eq, Structural)]
pub enum Layer {
    Layer1,
    Layer2,
}

impl Layer {
    /// The register encoding of this value.
    pub open spec fn value(self) -> u32 {
        match self {
            Layer::Layer1 => 0u32,
            Layer::Layer2 => 1u32,
        }
    }

    /// The register encoding of this value.
    pub fn bits(self) -> (r: u32)
        ensures
            r == self.value(),
    {
        match self {
            Layer::Layer1 => 0,
            Layer::Layer2 => 1,
        }
    }
}

/// Pixel format
#[derive(Clone, Copy, Debug, PartialEq, Eq, Structural)]
pub enum PixelFormat {
    /// ARGB8888
    Argb8888,
    /// RGB888
    Rgb888,
    /// RGB565
    Rgb565,
    /// ARGB1555
    Argb1555,
    /// ARGB4444
    Argb4444,
    /// L8 (8-bit luminance)
    L8,
    /// AL44 (4-bit alpha, 4-bit luminance)
    Al44,
    /// AL88 (8-bit alpha, 8-bit luminance)
    Al88,
}

impl PixelFormat {
    /// The register encoding of this value.
    pub open spec fn value(self) -> u32 {
        match self {
            PixelFormat::Argb8888 => 0b000u32,
            PixelFormat::Rgb888 => 0b001u32,
            PixelFormat::Rgb565 => 0b010u32,
            PixelFormat::Argb1555 => 0b011u32,
            PixelFormat::Argb4444 => 0b100u32,
            PixelFormat::L8 => 0b101u32,
            PixelFormat::Al44 => 0b110u32,
            PixelFormat::Al88 => 0b111u32,
        }
    }

    /// The register encoding of this value.
    pub fn bits(self) -> (r: u32)
        ensures
            r == self.value(),
    {
        match self {
            PixelFormat::Argb8888 => 0b000,
            PixelFormat::Rgb888 => 0b001,
            PixelFormat::Rgb565 => 0b010,
            PixelFormat::Argb1555 => 0b011,
            PixelFormat::Argb4444 => 0b100,
            PixelFormat::L8 => 0b101,
            PixelFormat::Al44 => 0b110,
            PixelFormat::Al88 => 0b111,
        }
    }
}

/// Display timing configuration
#[derive(Clone, Copy, Debug)]
pub struct TimingConfig {
    /// Horizontal sync width
    pub hsync: u16,
    /// Horizontal back porch
    pub hbp: u16,
    /// Active width (display resolution width)
    pub active_width: u16,
    /// Total width
    pub total_width: u16,
    /// Vertical sync height
    pub vsync: u16,
    /// Vertical back porch
    pub vbp: u16,
    /// Active height (display resolution height)
    pub active_height: u16,
    /// Total height
    pub total_height: u16,
}

/// Layer configuration
#[derive(Clone, Copy, Debug)]
pub struct LayerConfig {
    /// Window horizontal start position
    pub window_x0: u16,
    /// Window horizontal stop position
    pub window_x1: u16,
    /// Window vertical start position
    pub window_y0: u16,
    /// Window vertical stop position
    pub window_y1: u16,
    /// Pixel format
    pub pixel_format: PixelFormat,
    /// Frame buffer start address
    pub frame_buffer: usize,
    /// Frame buffer line length (in bytes + 3)
    pub line_length: u16,
    /// Frame buffer line count
    pub line_count: u16,
    /// Constant alpha value (0-255)
    pub constant_alpha: u8,
}

/// LTDC instance
pub struct Ltdc;

impl Ltdc {
    pub fn new() -> (r: Self) {
        Ltdc
    }

    /// The timing writes of `init`: SSCR (sync widths − 1), BPCR (sync plus
    /// back porch − 1), AWCR (sync, back porch and active area − 1) and TWCR
    /// (total size − 1), each with the horizontal value at bit 16 and the
    /// vertical value at bit 0.
    pub open spec fn timing_writes(t: TimingConfig) -> Seq<RegisterWrite> {
        seq![
            RegisterWrite { offset: reg::SSCR, value: (((t.hsync - 1) as u32) << 16u32) | ((t.vsync - 1) as u32) },
            RegisterWrite { offset: reg::BPCR, value: (((t.hsync + t.hbp - 1) as u32) << 16u32) | ((t.vsync + t.vbp - 1) as u32) },
            RegisterWrite {
                offset: reg::AWCR,
                value: (((t.hsync + t.hbp + t.active_width - 1) as u32) << 16u32) | ((t.vsync + t.vbp + t.active_height - 1) as u32),
            },
            RegisterWrite { offset: reg::TWCR, value: (((t.total_width - 1) as u32) << 16u32) | ((t.total_height - 1) as u32) },
        ]
    }

    /// The writes of `init` (after the LTDC clock is enabled).
    pub fn init(&self, timing: &TimingConfig) -> (r: [RegisterWrite; 4])
        requires
            timing.hsync >= 1,
            timing.vsync >= 1,
            timing.total_width >= 1,
            timing.total_height >= 1,
        ensures
            r@ == Self::timing_writes(*timing),
    {
        let hs = timing.hsync as u32;
        let vs = timing.vsync as u32;
        let r = [
            RegisterWrite { offset: reg::SSCR, value: ((hs - 1) << 16u32) | (vs - 1) },
            RegisterWrite { offset: reg::BPCR, value: ((hs + timing.hbp as u32 - 1) << 16u32) | (vs + timing.vbp as u32 - 1) },
            RegisterWrite {
                offset: reg::AWCR,
                value: ((hs + timing.hbp as u32 + timing.active_width as u32 - 1) << 16u32) | (vs + timing.vbp as u32
                    + timing.active_height as u32 - 1),
            },
            RegisterWrite { offset: reg::TWCR, value: ((timing.total_width as u32 - 1) << 16u32) | (timing.total_height as u32 - 1) },
        ];
        assert(r@ =~= Self::timing_writes(*timing));
        r
    }

    /// Offset of a layer's register block from layer 1's.
    pub open spec fn layer_offset_spec(layer: Layer) -> usize {
        if layer == Layer::Layer1 { 0 } else { LAYER2_OFFSET }
    }

    /// Offset of a layer's register block from layer 1's: 0 for layer 1,
    /// `LAYER2_OFFSET` for layer 2.
    pub fn layer_offset(&self, layer: Layer) -> (r: usize)
        ensures
            r == Self::layer_offset_spec(layer),
    {
        if layer == Layer::Layer1 { 0 } else { LAYER2_OFFSET }
    }

    /// The writes of `configure_layer`, at the layer's registers: the window
    /// (stop at bit 16, start at bit 0) horizontally and vertically, the
    /// pixel format, the constant alpha, the frame buffer address, the line
    /// length (pitch at bit 16, length + 3 at bit 0), then the line count.
    pub open spec fn layer_writes(layer: Layer, c: LayerConfig) -> Seq<RegisterWrite> {
        let o = Self::layer_offset_spec(layer);
        seq![
            RegisterWrite { offset: (layer_reg::L1WHPCR + o) as usize, value: ((c.window_x1 as u32) << 16u32) | (c.window_x0 as u32) },
            RegisterWrite { offset: (layer_reg::L1WVPCR + o) as usize, value: ((c.window_y1 as u32) << 16u32) | (c.window_y0 as u32) },
            RegisterWrite { offset: (layer_reg::L1PFCR + o) as usize, value: c.pixel_format.value() },
            RegisterWrite { offset: (layer_reg::L1CACR + o) as usize, value: c.constant_alpha as u32 },
            RegisterWrite { offset: (layer_reg::L1CFBAR + o) as usize, value: c.frame_buffer as u32 },
            RegisterWrite {
                offset: (layer_reg::L1CFBLR + o) as usize,
                value: ((c.line_length as u32) << 16u32) | ((c.line_length + 3) as u32),
            },
            RegisterWrite { offset: (layer_reg::L1CFBLNR + o) as usize, value: c.line_count as u32 },
        ]
    }

    /// The writes of `configure_layer`.
    pub fn configure_layer(&self, layer: Layer, config: &LayerConfig) -> (r: Vec<RegisterWrite>)
        ensures
            r@ == Self::layer_writes(layer, *config),
    {
        let o = self.layer_offset(layer);
        let mut r: Vec<RegisterWrite> = Vec::new();
        r.push(RegisterWrite { offset: layer_reg::L1WHPCR + o, value: ((config.window_x1 as u32) << 16u32) | (config.window_x0 as u32) });
        r.push(RegisterWrite { offset: layer_reg::L1WVPCR + o, value: ((config.window_y1 as u32) << 16u32) | (config.window_y0 as u32) });
        r.push(RegisterWrite { offset: layer_reg::L1PFCR + o, value: config.pixel_format.bits() });
        r.push(RegisterWrite { offset: layer_reg::L1CACR + o, value: config.constant_alpha as u32 });
        r.push(RegisterWrite { offset: layer_reg::L1CFBAR + o, value: config.frame_buffer as u32 });
        r.push(RegisterWrite { offset: layer_reg::L1CFBLR + o, value: ((config.line_length as u32) << 16u32) | (config.line_length as u32 + 3) });
        r.push(RegisterWrite { offset: layer_reg::L1CFBLNR + o, value: config.line_count as u32 });
        assert(r@ =~= Self::layer_writes(layer, *config));
        r
    }

    /// The write of `enable_layer`: the layer's control register LxCR (read
    /// as `lcr`) with the layer enabled (LEN, bit 0).
    pub fn enable_layer(&self, layer: Layer, lcr: u32) -> (r: RegisterWrite)
        ensures
            r == (RegisterWrite { offset: (layer_reg::L1CR + Self::layer_offset_spec(layer)) as usize, value: regs::with_bit(lcr, 0, true) }),
    {
        RegisterWrite { offset: layer_reg::L1CR + self.layer_offset(layer), value: set_bit(lcr, 0) }
    }

    /// The write of `disable_layer`: LxCR with LEN cleared.
    pub fn disable_layer(&self, layer: Layer, lcr: u32) -> (r: RegisterWrite)
        ensures
            r == (RegisterWrite { offset: (layer_reg::L1CR + Self::layer_offset_spec(layer)) as usize, value: regs::with_bit(lcr, 0, false) }),
    {
        RegisterWrite { offset: layer_reg::L1CR + self.layer_offset(layer), value: clear_bit(lcr, 0) }
    }

    /// GCR with the controller enabled (LTDCEN, bit 0).
    pub fn enable(&self, gcr: u32) -> (r: u32)
        ensures
            r == regs::with_bit(gcr, 0, true),
    {
        set_bit(gcr, 0)
    }

    /// GCR with the controller disabled (LTDCEN, bit 0).
    pub fn disable(&self, gcr: u32) -> (r: u32)
        ensures
            r == regs::with_bit(gcr, 0, false),
    {
        clear_bit(gcr, 0)
    }

    /// BCCR value of `set_background_color`: red at bit 16, green at bit 8,
    /// blue at bit 0.
    pub fn set_background_color(&self, red: u8, green: u8, blue: u8) -> (r: u32)
        ensures
            r == ((red as u32) << 16u32) | ((green as u32) << 8u32) | (blue as u32),
    {
        ((red as u32) << 16u32) | ((green as u32) << 8u32) | (blue as u32)
    }

    /// SRCR word of `reload`: an immediate reload (IMR, bit 0) or one at the
    /// next vertical blank (VBR, bit 1).
    pub fn reload(&self, immediate: bool) -> (r: u32)
        ensures
            r == if immediate { 1u32 << 0u32 } else { 1u32 << 1u32 },
    {
        if immediate { 1u32 << 0u32 } else { 1u32 << 1u32 }
    }

    /// Whether the display is in vertical blanking (VDES, bit 0 of CDSR).
    pub fn is_vblank(&self, cdsr: u32) -> (r: bool)
        ensures
            r == regs::bit(cdsr, 0),
    {
        test_bit(cdsr, 0)
    }

}

/// Layer 1 configuration of `init_ltdc_480x272`: the whole 480 x 272 panel
/// in RGB565 from `frame_buffer`, opaque.
pub open spec fn layer_480x272(frame_buffer: usize) -> LayerConfig {
    LayerConfig {
        window_x0: 0,
        window_x1: 480,
        window_y0: 0,
        window_y1: 272,
        pixel_format: PixelFormat::Rgb565,
        frame_buffer,
        line_length: 960,
        line_count: 272,
        constant_alpha: 255,
    }
}

/// The writes of `init_ltdc_480x272` (after the LTDC clock is enabled): the
/// 480 x 272 timings, layer 1 over the whole panel, layer 1 enabled (L1CR
/// read as `l1cr`), a black background, then the controller enabled (GCR
/// read as `gcr`).
pub fn init_ltdc_480x272(frame_buffer: usize, l1cr: u32, gcr: u32) -> (r: Vec<RegisterWrite>)
    ensures
        r@ == Ltdc::timing_writes(resolutions::timing_480x272()) + Ltdc::layer_writes(Layer::Layer1, layer_480x272(frame_buffer))
            + seq![
            RegisterWrite { offset: layer_reg::L1CR, value: regs::with_bit(l1cr, 0, true) },
            RegisterWrite { offset: reg::BCCR, value: 0 },
            RegisterWrite { offset: reg::GCR, value: regs::with_bit(gcr, 0, true) },
        ],
{
    let ltdc = Ltdc::new();
    let timing = resolutions::WVGA_480X272();
    let t = ltdc.init(&timing);
    let layer_config = LayerConfig {
        window_x0: 0,
        window_x1: 480,
        window_y0: 0,
        window_y1: 272,
        pixel_format: PixelFormat::Rgb565,
        frame_buffer,
        line_length: 480 * 2,
        line_count: 272,
        constant_alpha: 255,
    };
    let mut r: Vec<RegisterWrite> = Vec::new();
    r.push(t[0]);
    r.push(t[1]);
    r.push(t[2]);
    r.push(t[3]);
    let mut l = ltdc.configure_layer(Layer::Layer1, &layer_config);
    r.append(&mut l);
    r.push(ltdc.enable_layer(Layer::Layer1, l1cr));
    let bccr = ltdc.set_background_color(0, 0, 0);
    proof {
        regs::lemma_zero_bits(0, 16);
        regs::lemma_zero_bits(0, 8);
    }
    r.push(RegisterWrite { offset: reg::BCCR, value: bccr });
    r.push(RegisterWrite { offset: reg::GCR, value: ltdc.enable(gcr) });
    r
}

} // verus!
