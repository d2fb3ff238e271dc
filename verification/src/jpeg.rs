//! JPEG - JPEG Codec
//!
//! # Overview
//! STM32U5 JPEG codec provides hardware acceleration for JPEG image compression
//! and decompression, supporting various JPEG formats and features.
//!
//! # Features
//! Reference: RM0456 Chapter 46: JPEG codec (JPEG)
//!
//! ## Main Features
//! - JPEG baseline compression and decompression
//! - Support for YCbCr 4:2:0, 4:2:2, 4:4:4 formats
//! - Support for grayscale format
//! - Up to 8192 x 8192 resolution
//! - DMA support
//! - Error concealment
//!
//! # Reference
//! - RM0456 Chapter 46: JPEG codec (JPEG)
//! - Register map: RM0456, Section 46.7, pages 1931-1970
//! - JPEG Control Register (JPEG_CR): RM0456, Section 46.7.1, page 1932
//! - JPEG Status Register (JPEG_SR): RM0456, Section 46.7.2, page 1935
//! - JPEG Configuration Register (JPEG_CONFR): RM0456, Section 46.7.3, page 1937
use vstd::prelude::*;
use crate::regs::{self, clear_bit, set_bit, test_bit};
pub mod reg;
pub mod bits;

verus! {

broadcast use regs::lemma_low_mask_value;

/// JPEG base address
pub const JPEG_BASE: usize = 0x5200_4000;

/// JPEG color format
#[derive(Clone, Copy, Debug, PartialEq, Eq, Structural)]
pub enum ColorFormat {
    /// Grayscale
    Grayscale,
    /// YCbCr 4:2:0
    YCbCr420,
    /// YCbCr 4:2:2
    YCbCr422,
    /// YCbCr 4:4:4
    YCbCr444,
}

impl ColorFormat {
    /// The register encoding of this value.
    pub open spec fn value(self) -> u32 {
        match self {
            ColorFormat::Grayscale => 0u32,
            ColorFormat::YCbCr420 => 1u32,
            ColorFormat::YCbCr422 => 2u32,
            ColorFormat::YCbCr444 => 3u32,
        }
    }

    /// The register encoding of this value.
    pub fn bits(self) -> (r: u32)
        ensures
            r == self.value(),
    {
        match self {
            ColorFormat::Grayscale => 0,
            ColorFormat::YCbCr420 => 1,
            ColorFormat::YCbCr422 => 2,
            ColorFormat::YCbCr444 => 3,
        }
    }
}

/// JPEG operation mode
#[derive(Clone, Copy, Debug, PartialEq, Eq, Structural)]
pub enum OperationMode {
    /// Compression mode
    Compress,
    /// Decompression mode
    Decompress,
}

impl OperationMode {
    /// The register encoding of this value.
    pub open spec fn value(self) -> u32 {
        match self {
            OperationMode::Compress => 0u32,
            OperationMode::Decompress => 1u32,
        }
    }

    /// The register encoding of this value.
    pub fn bits(self) -> (r: u32)
        ensures
            r == self.value(),
    {
        match self {
            OperationMode::Compress => 0,
            OperationMode::Decompress => 1,
        }
    }
}

/// JPEG configuration
#[derive(Clone, Copy, Debug)]
pub struct Config {
    /// Operation mode
    pub mode: OperationMode,
    /// Color format
    pub color_format: ColorFormat,
    /// Image width
    pub width: u16,
    /// Image height
    pub height: u16,
    /// Quality (0-100)
    pub quality: u8,
}

impl Default for Config {
    fn default() -> (r: Self)
        ensures
            r == (Config { mode: OperationMode::Compress, color_format: ColorFormat::YCbCr420, width: 640, height: 480, quality: 75 }),
    {
        Config { mode: OperationMode::Compress, color_format: ColorFormat::YCbCr420, width: 640, height: 480, quality: 75 }
    }
}

/// JPEG instance
pub struct Jpeg;

impl Jpeg {
    /// Create JPEG instance
    pub fn new() -> (r: Self) {
        Jpeg
    }

    /// CR with the codec enabled (JPEGEN, bit 0).
    pub fn enable(&self, cr: u32) -> (r: u32)
        ensures
            r == regs::with_bit(cr, 0, true),
    {
        set_bit(cr, 0)
    }

    /// CR with the codec disabled (JPEGEN, bit 0).
    pub fn disable(&self, cr: u32) -> (r: u32)
        ensures
            r == regs::with_bit(cr, 0, false),
    {
        clear_bit(cr, 0)
    }

    /// CR value written by `init`: the codec enabled, and decoding selected
    /// (MODSEL, bit 3) for `Decompress`.
    pub fn init(&self, config: &Config) -> (r: u32)
        ensures
            r == regs::with_bit(regs::with_bit(0, 0, true), 3, config.mode == OperationMode::Decompress),
    {
        let val = set_bit(0, 0);
        if config.mode == OperationMode::Decompress {
            set_bit(val, 3)
        } else {
            clear_bit(val, 3)
        }
    }

    /// CR with an operation started (START, bit 1).
    pub fn start(&self, cr: u32) -> (r: u32)
        ensures
            r == regs::with_bit(cr, 1, true),
    {
        set_bit(cr, 1)
    }

    /// Whether the input FIFO takes data (RDYIN, bit 0).
    pub fn is_ready_input(&self, sr: u32) -> (r: bool)
        ensures
            r == regs::bit(sr, 0),
    {
        test_bit(sr, 0)
    }

    /// Whether the output FIFO holds data (RDYOUT, bit 1).
    pub fn is_ready_output(&self, sr: u32) -> (r: bool)
        ensures
            r == regs::bit(sr, 1),
    {
        test_bit(sr, 1)
    }

    /// Whether the conversion has ended (EOC, bit 2).
    pub fn is_complete(&self, sr: u32) -> (r: bool)
        ensures
            r == regs::bit(sr, 2),
    {
        test_bit(sr, 2)
    }

    /// CR with input DMA (DMAINEN, bit 11) enabled when `input` and output DMA
    /// (DMAOUTEN, bit 12) enabled when `output`; nothing is cleared.
    pub fn enable_dma(&self, input: bool, output: bool, cr: u32) -> (r: u32)
        ensures
            ({
                let a = if input { regs::with_bit(cr, 11, true) } else { cr };
                r == if output { regs::with_bit(a, 12, true) } else { a }
            }),
    {
        let a = if input { set_bit(cr, 11) } else { cr };
        if output { set_bit(a, 12) } else { a }
    }

    /// CR with both DMA requests (bits 11 and 12) disabled.
    pub fn disable_dma(&self, cr: u32) -> (r: u32)
        ensures
            r == regs::with_bit(regs::with_bit(cr, 11, false), 12, false),
    {
        clear_bit(clear_bit(cr, 11), 12)
    }

}

/// CR value written by `init_jpeg_default`: `init` with the default
/// configuration, an enabled encoder.
pub fn init_jpeg_default() -> (r: u32)
    ensures
        r == regs::with_bit(regs::with_bit(0, 0, true), 3, false),
{
    let jpeg = Jpeg::new();
    let config = Config::default();
    jpeg.init(&config)
}

} // verus!
