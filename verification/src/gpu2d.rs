//! GPU2D - Graphics Processing Unit 2D
//!
//! ## Features
//! Functions:
//! - Pixel format conversion
//! - Image blending
//! - Color filling
//! - Source to destination copy
//! - Mirroring and rotation
//!
//! Supported Pixel Formats:
//! - ARGB8888
//! - RGB888
//! - RGB565
//! - ARGB1555
//! - ARGB4444
//! - L8
//! - AL44
//! - AL88
//!
//! Blending Modes:
//! - No blending
//! - Constant alpha blending
//! - Pixel alpha blending
//! - Combined constant and pixel alpha
//!
//! Other features:
//! - Line offset
//! - Clipping window
//! - DMA2D compatible register set
//! - AHB master interface
//!
//! ## Reference
//! - RM0456 Reference Manual, Chapter 45: Chrom-ART Accelerator (DMA2D)
//! - RM0456 Section 45.1: DMA2D introduction
//! - RM0456 Section 45.2: DMA2D main features
//! - RM0456 Section 45.3: DMA2D functional description
//! - RM0456 Section 45.4: DMA2D registers
use vstd::prelude::*;
use crate::regs::{self, RegisterWrite, set_bit, set_field, test_bit};
pub mod reg;
pub mod cr_bits;
pub mod isr_bits;

verus! {

broadcast use regs::lemma_low_mask_value;

/// GPU2D (DMA2D) base address
pub const DMA2D_BASE: usize = 0x4002_B000;

/// DMA2D Mode
#[derive(Clone, Copy, Debug, PartialEq, Eq, Structural)]
pub enum Mode {
    /// Memory-to-memory with PFC
    MemToMemPfc,
    /// Memory-to-memory with PFC and blending
    MemToMemPfcBlend,
    /// Register-to-memory
    RegToMem,
    /// Memory-to-memory
    MemToMem,
}

impl Mode {
    /// The register encoding of this value.
    pub open spec fn value(self) -> u32 {
        match self {
            Mode::MemToMemPfc => 0b00u32,
            Mode::MemToMemPfcBlend => 0b01u32,
            Mode::RegToMem => 0b10u32,
            Mode::MemToMem => 0b11u32,
        }
    }

    /// The register encoding of this value.
    pub fn bits(self) -> (r: u32)
        ensures
            r == self.value(),
    {
        match self {
            Mode::MemToMemPfc => 0b00,
            Mode::MemToMemPfcBlend => 0b01,
            Mode::RegToMem => 0b10,
            Mode::MemToMem => 0b11,
        }
    }
}

/// Pixel Format
#[derive(Clone, Copy, Debug, PartialEq, Eq, Structural)]
pub enum PixelFormat {
    /// ARGB8888
    Argb8888,
    /// RGB888
    Rgb888,
    /// RGB565
    Rgb565,
    /// ARGB1555
    Argb1555,
    /// ARGB4444
    Argb4444,
    /// L8
    L8,
    /// AL44
    Al44,
    /// AL88
    Al88,
}

impl PixelFormat {
    /// The register encoding of this value.
    pub open spec fn value(self) -> u32 {
        match self {
            PixelFormat::Argb8888 => 0b000u32,
            PixelFormat::Rgb888 => 0b001u32,
            PixelFormat::Rgb565 => 0b010u32,
            PixelFormat::Argb1555 => 0b011u32,
            PixelFormat::Argb4444 => 0b100u32,
            PixelFormat::L8 => 0b101u32,
            PixelFormat::Al44 => 0b110u32,
            PixelFormat::Al88 => 0b111u32,
        }
    }

    /// The register encoding of this value.
    pub fn bits(self) -> (r: u32)
        ensures
            r == self.value(),
    {
        match self {
            PixelFormat::Argb8888 => 0b000,
            PixelFormat::Rgb888 => 0b001,
            PixelFormat::Rgb565 => 0b010,
            PixelFormat::Argb1555 => 0b011,
            PixelFormat::Argb4444 => 0b100,
            PixelFormat::L8 => 0b101,
            PixelFormat::Al44 => 0b110,
            PixelFormat::Al88 => 0b111,
        }
    }
}

/// DMA2D Instance
pub struct Dma2d;

impl Dma2d {
    /// Create DMA2D instance
    pub fn new() -> (r: Self) {
        Dma2d
    }

    /// CR with the transfer mode (MODE, bits 16-17) set to `mode`.
    pub fn set_mode(&self, mode: Mode, cr: u32) -> (r: u32)
        ensures
            r == regs::with_field(cr, 16, 2, mode.value()),
            regs::field(r, 16, 2) == mode.value(),
    {
        proof {
            regs::lemma_with_field(cr, 16, 2, mode.value());
        }
        set_field(cr, 16, 2, mode.bits())
    }

    /// OPFCCR with the output color mode (bits 0-2) cleared and `format` or-ed in.
    pub fn set_output_color_mode(&self, format: PixelFormat, opfccr: u32) -> (r: u32)
        ensures
            r == (opfccr & !(0b111u32 << 0u32)) | format.value(),
    {
        (opfccr & !(0b111u32 << 0u32)) | format.bits()
    }

    /// FGPFCCR with the foreground color mode (bits 0-2) cleared and `format` or-ed in.
    pub fn set_foreground_color_mode(&self, format: PixelFormat, fgpfccr: u32) -> (r: u32)
        ensures
            r == (fgpfccr & !(0b111u32 << 0u32)) | format.value(),
    {
        (fgpfccr & !(0b111u32 << 0u32)) | format.bits()
    }

    /// BGPFCCR with the background color mode (bits 0-2) cleared and `format` or-ed in.
    pub fn set_background_color_mode(&self, format: PixelFormat, bgpfccr: u32) -> (r: u32)
        ensures
            r == (bgpfccr & !(0b111u32 << 0u32)) | format.value(),
    {
        (bgpfccr & !(0b111u32 << 0u32)) | format.bits()
    }

    /// The write of `set_foreground_address`: the foreground memory address, truncated to 32 bits.
    pub fn set_foreground_address(&self, address: usize) -> (r: RegisterWrite)
        ensures
            r == (RegisterWrite { offset: reg::FGMAR, value: address as u32 }),
    {
        RegisterWrite { offset: reg::FGMAR, value: address as u32 }
    }

    /// The write of `set_background_address`: the background memory address, truncated to 32 bits.
    pub fn set_background_address(&self, address: usize) -> (r: RegisterWrite)
        ensures
            r == (RegisterWrite { offset: reg::BGMAR, value: address as u32 }),
    {
        RegisterWrite { offset: reg::BGMAR, value: address as u32 }
    }

    /// The write of `set_output_address`: the output memory address, truncated to 32 bits.
    pub fn set_output_address(&self, address: usize) -> (r: RegisterWrite)
        ensures
            r == (RegisterWrite { offset: reg::OMAR, value: address as u32 }),
    {
        RegisterWrite { offset: reg::OMAR, value: address as u32 }
    }

    /// The write of `set_foreground_offset`: the foreground line offset.
    pub fn set_foreground_offset(&self, offset: u16) -> (r: RegisterWrite)
        ensures
            r == (RegisterWrite { offset: reg::FGOR, value: offset as u32 }),
    {
        RegisterWrite { offset: reg::FGOR, value: offset as u32 }
    }

    /// The write of `set_background_offset`: the background line offset.
    pub fn set_background_offset(&self, offset: u16) -> (r: RegisterWrite)
        ensures
            r == (RegisterWrite { offset: reg::BGOR, value: offset as u32 }),
    {
        RegisterWrite { offset: reg::BGOR, value: offset as u32 }
    }

    /// The write of `set_output_offset`: the output line offset.
    pub fn set_output_offset(&self, offset: u16) -> (r: RegisterWrite)
        ensures
            r == (RegisterWrite { offset: reg::OOR, value: offset as u32 }),
    {
        RegisterWrite { offset: reg::OOR, value: offset as u32 }
    }

    /// The write of `set_output_size`: pixels per line at bit 16, number of
    /// lines at bit 0.
    pub fn set_output_size(&self, width: u16, height: u16) -> (r: RegisterWrite)
        ensures
            r == (RegisterWrite { offset: reg::NLR, value: ((width as u32) << 16) | (height as u32) }),
    {
        RegisterWrite { offset: reg::NLR, value: ((width as u32) << 16) | (height as u32) }
    }

    /// The write of `set_output_color`.
    pub fn set_output_color(&self, color: u32) -> (r: RegisterWrite)
        ensures
            r == (RegisterWrite { offset: reg::OCOLR, value: color }),
    {
        RegisterWrite { offset: reg::OCOLR, value: color }
    }

    /// CR with the transfer started (START, bit 0).
    pub fn start(&self, cr: u32) -> (r: u32)
        ensures
            r == regs::with_bit(cr, 0, true),
    {
        set_bit(cr, 0)
    }

    /// Whether ISR reports the transfer complete (TCIF, bit 1).
    pub fn is_complete(&self, isr: u32) -> (r: bool)
        ensures
            r == regs::bit(isr, 1),
    {
        test_bit(isr, 1)
    }

    /// Whether ISR reports a transfer error (TEIF, bit 0).
    pub fn has_error(&self, isr: u32) -> (r: bool)
        ensures
            r == regs::bit(isr, 0),
    {
        test_bit(isr, 0)
    }

    /// IFCR word of `clear_complete`.
    pub fn clear_complete(&self) -> (r: u32)
        ensures
            r == isr_bits::TCIF,
    {
        isr_bits::TCIF
    }

    /// IFCR word of `clear_error`.
    pub fn clear_error(&self) -> (r: u32)
        ensures
            r == isr_bits::TEIF,
    {
        isr_bits::TEIF
    }

    /// The writes of `copy` of a contiguous `width` x `height` block, in
    /// order, given the CR value before: the memory-to-memory mode, source,
    /// destination, size, source and destination line offsets (both 0: no
    /// gap between lines), the start; then, once the transfer is complete,
    /// the flag clear.
    pub fn copy(&self, src: usize, dst: usize, width: u16, height: u16, cr: u32) -> (r: Vec<RegisterWrite>)
        ensures
            r@ == seq![
                RegisterWrite { offset: reg::CR, value: regs::with_field(cr, 16, 2, Mode::MemToMem.value()) },
                RegisterWrite { offset: reg::FGMAR, value: src as u32 },
                RegisterWrite { offset: reg::OMAR, value: dst as u32 },
                RegisterWrite { offset: reg::NLR, value: ((width as u32) << 16) | (height as u32) },
                RegisterWrite { offset: reg::FGOR, value: 0 },
                RegisterWrite { offset: reg::OOR, value: 0 },
                RegisterWrite { offset: reg::CR, value: regs::with_bit(regs::with_field(cr, 16, 2, Mode::MemToMem.value()), 0, true) },
                RegisterWrite { offset: reg::IFCR, value: isr_bits::TCIF },
            ],
    {
        let cr1 = self.set_mode(Mode::MemToMem, cr);
        let mut r: Vec<RegisterWrite> = Vec::new();
        r.push(RegisterWrite { offset: reg::CR, value: cr1 });
        r.push(self.set_foreground_address(src));
        r.push(self.set_output_address(dst));
        r.push(self.set_output_size(width, height));
        r.push(self.set_foreground_offset(0));
        r.push(self.set_output_offset(0));
        r.push(RegisterWrite { offset: reg::CR, value: self.start(cr1) });
        r.push(RegisterWrite { offset: reg::IFCR, value: self.clear_complete() });
        r
    }

    /// The writes of `fill` of a contiguous `width` x `height` block, in
    /// order, given the CR value before: the register-to-memory mode,
    /// destination, size, output line offset 0 (no gap between lines), the
    /// color, the start; then, once complete, the flag clear.
    pub fn fill(&self, dst: usize, width: u16, height: u16, color: u32, cr: u32) -> (r: Vec<RegisterWrite>)
        ensures
            r@ == seq![
                RegisterWrite { offset: reg::CR, value: regs::with_field(cr, 16, 2, Mode::RegToMem.value()) },
                RegisterWrite { offset: reg::OMAR, value: dst as u32 },
                RegisterWrite { offset: reg::NLR, value: ((width as u32) << 16) | (height as u32) },
                RegisterWrite { offset: reg::OOR, value: 0 },
                RegisterWrite { offset: reg::OCOLR, value: color },
                RegisterWrite { offset: reg::CR, value: regs::with_bit(regs::with_field(cr, 16, 2, Mode::RegToMem.value()), 0, true) },
                RegisterWrite { offset: reg::IFCR, value: isr_bits::TCIF },
            ],
    {
        let cr1 = self.set_mode(Mode::RegToMem, cr);
        let mut r: Vec<RegisterWrite> = Vec::new();
        r.push(RegisterWrite { offset: reg::CR, value: cr1 });
        r.push(self.set_output_address(dst));
        r.push(self.set_output_size(width, height));
        r.push(self.set_output_offset(0));
        r.push(self.set_output_color(color));
        r.push(RegisterWrite { offset: reg::CR, value: self.start(cr1) });
        r.push(RegisterWrite { offset: reg::IFCR, value: self.clear_complete() });
        r
    }

    /// CR with the transfer-complete (TCIE) and transfer-error (TEIE)
    /// interrupts enabled as requested; others unchanged.
    pub fn enable_interrupts(&self, transfer_complete: bool, transfer_error: bool, cr: u32) -> (r: u32)
        ensures
            r == ({
                let v = if transfer_complete { regs::with_bit(cr, 9, true) } else { cr };
                if transfer_error { regs::with_bit(v, 8, true) } else { v }
            }),
    {
        let mut val = cr;
        if transfer_complete {
            val = set_bit(val, 9);
        }
        if transfer_error {
            val = set_bit(val, 8);
        }
        val
    }

    /// CR with both transfer interrupts disabled.
    pub fn disable_interrupts(&self, cr: u32) -> (r: u32)
        ensures
            r == cr & !(cr_bits::TCIE | cr_bits::TEIE),
    {
        cr & !(cr_bits::TCIE | cr_bits::TEIE)
    }

}

/// CR after `init_dma2d`: the memory-to-memory transfer mode selected.
pub fn init_dma2d(cr: u32) -> (r: u32)
    ensures
        r == regs::with_field(cr, 16, 2, Mode::MemToMem.value()),
{
    let dma2d = Dma2d::new();
    dma2d.set_mode(Mode::MemToMem, cr)
}

} // verus!
