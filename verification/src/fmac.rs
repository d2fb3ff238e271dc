//! FMAC - Filter Math Accelerator
//!
//! ## Features
//! Supported Filter Types:
//! - FIR (Finite Impulse Response)
//! - IIR (Infinite Impulse Response)
//!
//! IIR Modes:
//! - Direct Form I
//! - Direct Form II
//! - Direct Form II Fast
//!
//! Buffers:
//! - Input buffer (X1)
//! - Coefficient buffer (X2)
//! - Output buffer (Y)
//!
//! Other features:
//! - DMA transfers
//!
//! ## Reference
//! - RM0456 Reference Manual, Chapter 39: Filter math accelerator (FMAC)
use vstd::prelude::*;
use crate::regs::{self, RegisterWrite, clear_bit, flag_bits, get_field, set_bit, test_bit};

verus! {

broadcast use regs::lemma_low_mask_value;

/// FMAC base address
/// AHB1 bus, accessible at 0x4004_1400
pub const FMAC_BASE: usize = 0x4004_1400;

/// Offset of the X2/Y2 buffer configuration register.
pub const X2BUFCFG: usize = 0x04;
/// Offset of the Y buffer configuration register.
pub const YBUFCFG: usize = 0x08;
/// Offset of the control register in the `FmacRegs` layout.
pub const CR: usize = 0x40;
/// Offset of the status register.
pub const SR: usize = 0x44;
/// Offset of the write data register.
pub const WDATA: usize = 0x48;
/// Offset of the read data register.
pub const RDATA: usize = 0x4C;
/// Offset of the coefficient memory.
pub const COEFF: usize = 0x100;


/// FMAC function
#[derive(Clone, Copy, Debug, PartialEq, Eq, Structural)]
pub enum Function {
    /// Convolution FIR
    ConvFir,
    /// IIR Direct Form I
    ConvIirDirect1,
    /// IIR Direct Form II
    ConvIirDirect2,
    /// IIR Direct Form I Fast
    ConvIirDirect1Fast,
}

impl Function {
    /// The register encoding of this value.
    pub open spec fn value(self) -> u32 {
        match self {
            Function::ConvFir => 0u32,
            Function::ConvIirDirect1 => 1u32,
            Function::ConvIirDirect2 => 2u32,
            Function::ConvIirDirect1Fast => 3u32,
        }
    }

    /// The register encoding of this value.
    pub fn bits(self) -> (r: u32)
        ensures
            r == self.value(),
    {
        match self {
            Function::ConvFir => 0,
            Function::ConvIirDirect1 => 1,
            Function::ConvIirDirect2 => 2,
            Function::ConvIirDirect1Fast => 3,
        }
    }
}

/// P parameter (Input preprocessing)
#[derive(Clone, Copy, Debug, PartialEq, Eq, Structural)]
pub enum P {
    /// P = 1 / P = 1
    P1,
    /// P = 2 / P = 2
    P2,
    /// P = 4 / P = 4
    P4,
    /// P = 8 / P = 8
    P8,
}

impl P {
    /// The register encoding of this value.
    pub open spec fn value(self) -> u32 {
        match self {
            P::P1 => 0u32,
            P::P2 => 1u32,
            P::P4 => 2u32,
            P::P8 => 3u32,
        }
    }

    /// The register encoding of this value.
    pub fn bits(self) -> (r: u32)
        ensures
            r == self.value(),
    {
        match self {
            P::P1 => 0,
            P::P2 => 1,
            P::P4 => 2,
            P::P8 => 3,
        }
    }
}

/// Q parameter (Coefficient preprocessing)
#[derive(Clone, Copy, Debug, PartialEq, Eq, Structural)]
pub enum Q {
    /// Q = 1 / Q = 1
    Q1,
    /// Q = 2 / Q = 2
    Q2,
    /// Q = 4 / Q = 4
    Q4,
    /// Q = 8 / Q = 8
    Q8,
}

impl Q {
    /// The register encoding of this value.
    pub open spec fn value(self) -> u32 {
        match self {
            Q::Q1 => 0u32,
            Q::Q2 => 1u32,
            Q::Q4 => 2u32,
            Q::Q8 => 3u32,
        }
    }

    /// The register encoding of this value.
    pub fn bits(self) -> (r: u32)
        ensures
            r == self.value(),
    {
        match self {
            Q::Q1 => 0,
            Q::Q2 => 1,
            Q::Q4 => 2,
            Q::Q8 => 3,
        }
    }
}

/// R parameter (Output postprocessing)
#[derive(Clone, Copy, Debug, PartialEq, Eq, Structural)]
pub enum R {
    /// R = 1 / R = 1
    R1,
    /// R = 2 / R = 2
    R2,
    /// R = 4 / R = 4
    R4,
    /// R = 8 / R = 8
    R8,
}

impl R {
    /// The register encoding of this value.
    pub open spec fn value(self) -> u32 {
        match self {
            R::R1 => 0u32,
            R::R2 => 1u32,
            R::R4 => 2u32,
            R::R8 => 3u32,
        }
    }

    /// The register encoding of this value.
    pub fn bits(self) -> (r: u32)
        ensures
            r == self.value(),
    {
        match self {
            R::R1 => 0,
            R::R2 => 1,
            R::R4 => 2,
            R::R8 => 3,
        }
    }
}

/// FMAC register structure
pub struct FmacRegs {
    /// FMAC X1 Buffer Register 1
    pub x1y1: u32,
    /// FMAC X2/Y2 Buffer Register
    pub x2y2: u32,
    /// FMAC X3/Y3 Buffer Register
    pub x3y3: u32,
    /// FMAC X4/Y4 Buffer Register
    pub x4y4: u32,
    /// FMAC X5/Y5 Buffer Register
    pub x5y5: u32,
    /// FMAC X6/Y6 Buffer Register
    pub x6y6: u32,
    /// FMAC X7/Y7 Buffer Register
    pub x7y7: u32,
    /// FMAC X8/Y8 Buffer Register
    pub x8y8: u32,
    /// FMAC X9/Y9 Buffer Register
    pub x9y9: u32,
    /// FMAC X10/Y10 Buffer Register
    pub x10y10: u32,
    /// FMAC X11/Y11 Buffer Register
    pub x11y11: u32,
    /// FMAC X12/Y12 Buffer Register
    pub x12y12: u32,
    /// FMAC X13/Y13 Buffer Register
    pub x13y13: u32,
    /// FMAC X14/Y14 Buffer Register
    pub x14y14: u32,
    /// FMAC X15/Y15 Buffer Register
    pub x15y15: u32,
    /// FMAC X16/Y16 Buffer Register
    pub x16y16: u32,
    /// FMAC Control Register
    pub cr: u32,
    /// FMAC Status Register
    pub sr: u32,
    /// FMAC Write Data Register
    pub wdata: u32,
    /// FMAC Read Data Register
    pub rdata: u32,
}

/// FMAC instance
pub struct Fmac;

/// FMAC configuration
#[derive(Clone, Copy, Debug)]
pub struct Config {
    /// Function selection
    pub func: Function,
    /// P parameter (Input preprocessing)
    pub p: P,
    /// Q parameter (Coefficient preprocessing)
    pub q: Q,
    /// R parameter (Output postprocessing)
    pub r: R,
    /// X1 buffer base address
    pub x1_buf_base: u8,
    /// X1 buffer size
    pub x1_buf_size: u8,
    /// Y buffer base address
    pub y_buf_base: u8,
    /// Y buffer size
    pub y_buf_size: u8,
    /// X2 buffer base address
    pub x2_buf_base: u8,
    /// X2 buffer size
    pub x2_buf_size: u8,
    /// Clip enable
    pub clip: bool,
    /// Saturation enable
    pub sat: bool,
    /// DMA input enable
    pub din_dma: bool,
    /// DMA output enable
    pub dout_dma: bool,
}

impl Default for Config {
    fn default() -> (r: Self)
        ensures
            r == (Config { func: Function::ConvFir, p: P::P1, q: Q::Q1, r: R::R1, x1_buf_base: 0, x1_buf_size: 16, y_buf_base: 16, y_buf_size: 16, x2_buf_base: 32, x2_buf_size: 16, clip: false, sat: false, din_dma: false, dout_dma: false }),
    {
        Config { func: Function::ConvFir, p: P::P1, q: Q::Q1, r: R::R1, x1_buf_base: 0, x1_buf_size: 16, y_buf_base: 16, y_buf_size: 16, x2_buf_base: 32, x2_buf_size: 16, clip: false, sat: false, din_dma: false, dout_dma: false }
    }
}

impl Fmac {
    /// Create new FMAC instance
    pub fn new() -> (r: Self) {
        Fmac
    }

    /// AHB1ENR with the FMAC clock enabled (bit 16).
    pub fn enable_clock(&self, ahb1enr: u32) -> (r: u32)
        ensures
            r == regs::with_bit(ahb1enr, 16, true),
    {
        set_bit(ahb1enr, 16)
    }

    /// AHB1ENR with the FMAC clock disabled (bit 16 cleared).
    pub fn disable_clock(&self, ahb1enr: u32) -> (r: u32)
        ensures
            r == regs::with_bit(ahb1enr, 16, false),
    {
        clear_bit(ahb1enr, 16)
    }

    /// The two AHB1RSTR words of `reset`: the FMAC reset bit (16) asserted,
    /// then released.
    pub fn reset(&self, ahb1rstr: u32) -> (r: (u32, u32))
        ensures
            r.0 == regs::with_bit(ahb1rstr, 16, true),
            r.1 == regs::with_bit(r.0, 16, false),
    {
        let a = set_bit(ahb1rstr, 16);
        (a, clear_bit(a, 16))
    }

    /// CR value of `configure`: function at bit 0, P at bit 4, Q at bit 6,
    /// R at bit 8, CLIP, SAT, DMA requests at bits 12-15, and the X1 buffer
    /// base and size at bits 16 and 24.
    pub open spec fn cr_value(config: Config) -> u32 {
        config.func.value() | (config.p.value() << 4) | (config.q.value() << 6) | (config.r.value() << 8)
            | ((config.x1_buf_base as u32) << 16) | ((config.x1_buf_size as u32) << 24) | (regs::flag(config.clip) << 12)
            | (regs::flag(config.sat) << 13) | (regs::flag(config.din_dma) << 14) | (regs::flag(config.dout_dma) << 15)
    }

    /// The writes of `configure`: CR, then the X2 and Y buffer configurations
    /// (base at bit 16, size at bit 24).
    pub fn configure(&self, config: &Config) -> (r: [RegisterWrite; 3])
        ensures
            r[0] == (RegisterWrite { offset: CR, value: Self::cr_value(*config) }),
            r[1] == (RegisterWrite { offset: X2BUFCFG, value: ((config.x2_buf_base as u32) << 16) | ((config.x2_buf_size as u32) << 24) }),
            r[2] == (RegisterWrite { offset: YBUFCFG, value: ((config.y_buf_base as u32) << 16) | ((config.y_buf_size as u32) << 24) }),
    {
        let cr = config.func.bits() | (config.p.bits() << 4) | (config.q.bits() << 6) | (config.r.bits() << 8)
            | ((config.x1_buf_base as u32) << 16) | ((config.x1_buf_size as u32) << 24) | (flag_bits(config.clip) << 12)
            | (flag_bits(config.sat) << 13) | (flag_bits(config.din_dma) << 14) | (flag_bits(config.dout_dma) << 15);
        [
            RegisterWrite { offset: CR, value: cr },
            RegisterWrite { offset: X2BUFCFG, value: ((config.x2_buf_base as u32) << 16) | ((config.x2_buf_size as u32) << 24) },
            RegisterWrite { offset: YBUFCFG, value: ((config.y_buf_base as u32) << 16) | ((config.y_buf_size as u32) << 24) },
        ]
    }

    /// CR with the filter started (START, bit 31).
    pub fn enable(&self, cr: u32) -> (r: u32)
        ensures
            r == regs::with_bit(cr, 31, true),
    {
        set_bit(cr, 31)
    }

    /// CR with the filter stopped.
    pub fn disable(&self, cr: u32) -> (r: u32)
        ensures
            r == regs::with_bit(cr, 31, false),
    {
        clear_bit(cr, 31)
    }

    /// Whether SR reports the FMAC ready for data (bit 0); `write_data` and
    /// `read_data` wait for it.
    pub fn is_ready(&self, sr: u32) -> (r: bool)
        ensures
            r == regs::bit(sr, 0),
    {
        test_bit(sr, 0)
    }

    /// WDATA word of `write_data`: the bits of `data`, sign-extended.
    pub fn write_data(&self, data: i16) -> (r: u32)
        ensures
            r == data as u32,
    {
        data as u32
    }

    /// The sample read from RDATA by `read_data`: its low 16 bits, signed.
    pub fn read_data(&self, rdata: u32) -> (r: i16)
        ensures
            r == rdata as i16,
    {
        rdata as i16
    }

    /// The write of `write_coeff`: `coeff`, sign-extended, to coefficient
    /// slot `index` (at COEFF + 4 * index).
    pub fn write_coeff(&self, index: usize, coeff: i16) -> (r: RegisterWrite)
        requires
            COEFF + 4 * index <= usize::MAX,
        ensures
            r == (RegisterWrite { offset: (COEFF + 4 * index) as usize, value: coeff as u32 }),
    {
        RegisterWrite { offset: COEFF + index * 4, value: coeff as u32 }
    }

    /// A coefficient read back by `read_coeff`: the low 16 bits, signed.
    pub fn read_coeff(&self, word: u32) -> (r: i16)
        ensures
            r == word as i16,
    {
        word as i16
    }

    /// CR requesting the X1 buffer clear (bit 30); the hardware clears the bit when done.
    pub fn clear_x1_buffer(&self, cr: u32) -> (r: u32)
        ensures
            r == regs::with_bit(cr, 30, true),
    {
        set_bit(cr, 30)
    }

    /// CR requesting the X2 buffer clear (bit 29); the hardware clears the bit when done.
    pub fn clear_x2_buffer(&self, cr: u32) -> (r: u32)
        ensures
            r == regs::with_bit(cr, 29, true),
    {
        set_bit(cr, 29)
    }

    /// CR requesting the Y buffer clear (bit 28); the hardware clears the bit when done.
    pub fn clear_y_buffer(&self, cr: u32) -> (r: u32)
        ensures
            r == regs::with_bit(cr, 28, true),
    {
        set_bit(cr, 28)
    }

    /// CR requesting the filter reset (bit 27); the hardware clears the bit when done.
    pub fn reset_filter(&self, cr: u32) -> (r: u32)
        ensures
            r == regs::with_bit(cr, 27, true),
    {
        set_bit(cr, 27)
    }

    /// The X1 full watermark (bits 4-5) of SR.
    pub fn get_x1_full_wm(&self, sr: u32) -> (r: u8)
        ensures
            r == regs::field(sr, 4, 2) as u8,
    {
        get_field(sr, 4, 2) as u8
    }

    /// The Y empty watermark (bits 6-7) of SR.
    pub fn get_y_empty_wm(&self, sr: u32) -> (r: u8)
        ensures
            r == regs::field(sr, 6, 2) as u8,
    {
        get_field(sr, 6, 2) as u8
    }

    /// The number of unread samples (bits 16-23) of SR.
    pub fn get_unread_samples(&self, sr: u32) -> (r: u8)
        ensures
            r == regs::field(sr, 16, 8) as u8,
    {
        get_field(sr, 16, 8) as u8
    }

    /// Whether SR reports X1 buffer full (bit 8).
    pub fn is_x1_full(&self, sr: u32) -> (r: bool)
        ensures
            r == regs::bit(sr, 8),
    {
        test_bit(sr, 8)
    }

    /// Whether SR reports X2 buffer full (bit 9).
    pub fn is_x2_full(&self, sr: u32) -> (r: bool)
        ensures
            r == regs::bit(sr, 9),
    {
        test_bit(sr, 9)
    }

    /// Whether SR reports Y buffer empty (bit 10).
    pub fn is_y_empty(&self, sr: u32) -> (r: bool)
        ensures
            r == regs::bit(sr, 10),
    {
        test_bit(sr, 10)
    }

    /// Whether SR reports a saturation (bit 11).
    pub fn is_saturation(&self, sr: u32) -> (r: bool)
        ensures
            r == regs::bit(sr, 11),
    {
        test_bit(sr, 11)
    }

    /// SR word of `clear_saturation_flag`: bit 11.
    pub fn clear_saturation_flag(&self) -> (r: u32)
        ensures
            r == 1u32 << 11,
    {
        1u32 << 11
    }

    /// The writes of `load_coefficients`: coefficient `i` to slot `i`, in
    /// order.
    pub fn load_coefficients(&self, coeffs: &[i16]) -> (r: Vec<RegisterWrite>)
        requires
            COEFF + 4 * coeffs@.len() <= usize::MAX,
        ensures
            r@.len() == coeffs@.len(),
            forall|i: int| #![trigger r@[i]] 0 <= i < r@.len() ==> r@[i] == (RegisterWrite { offset: (COEFF + 4 * i) as usize, value: coeffs@[i] as u32 }),
    {
        let mut r: Vec<RegisterWrite> = Vec::new();
        let mut i: usize = 0;
        while i < coeffs.len()
            invariant
                i <= coeffs@.len(),
                COEFF + 4 * coeffs@.len() <= usize::MAX,
                r@.len() == i,
                forall|k: int| #![trigger r@[k]] 0 <= k < i ==> r@[k] == (RegisterWrite { offset: (COEFF + 4 * k) as usize, value: coeffs@[k] as u32 }),
            decreases coeffs@.len() - i,
        {
            r.push(self.write_coeff(i, coeffs[i]));
            i = i + 1;
        }
        r
    }

    /// Filtered output of `process_buffer`: `results[i]` is the filter output
    /// for input sample `i`; outputs are produced for the first
    /// `min(input.len(), output.len())` samples and the rest of `output` is
    /// left unchanged.
    pub fn process_buffer(&self, input: &[i16], output: &mut [i16], results: &[i16])
        requires
            results@.len() >= if input@.len() < old(output)@.len() { input@.len() } else { old(output)@.len() },
        ensures
            final(output)@.len() == old(output)@.len(),
            forall|i: int| 0 <= i < final(output)@.len() ==> #[trigger] final(output)@[i] == if i < input@.len() { results@[i] } else { old(output)@[i] },
    {
        let mut i: usize = 0;
        while i < input.len()
            invariant
                i <= input@.len(),
                output@.len() == old(output)@.len(),
                results@.len() >= if input@.len() < old(output)@.len() { input@.len() } else { old(output)@.len() },
                forall|k: int| 0 <= k < output@.len() ==> #[trigger] output@[k] == if k < i { results@[k] } else { old(output)@[k] },
            decreases input@.len() - i,
        {
            if i < output.len() {
                output[i] = results[i];
            }
            i = i + 1;
        }
    }

    /// `process_sample`: the WDATA word written for `sample`, and the filter
    /// output read back from RDATA afterwards (`rdata`).
    pub fn process_sample(&self, sample: i16, rdata: u32) -> (r: (u32, i16))
        ensures
            r.0 == sample as u32,
            r.1 == rdata as i16,
    {
        (self.write_data(sample), self.read_data(rdata))
    }

}

} // verus!
