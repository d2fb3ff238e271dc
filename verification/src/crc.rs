//! CRC - Cyclic Redundancy Check
//!
//! # Overview
//! STM32U5 Cyclic Redundancy Check (CRC) provides hardware acceleration for
//! CRC calculations with support for multiple CRC standards.
//!
//! # Features
//! Reference: RM0456 Chapter 24: Cyclic redundancy check calculation unit (CRC)
//!
//! ## Supported CRC Standards
//! - CRC-8
//! - CRC-16
//! - CRC-32
//!
//! ## Programmable Features
//! - Programmable polynomial
//! - Programmable initial value
//! - Input data reverse
//! - Output data reverse
//!
//! ## Data Width
//! - Byte operation (8-bit)
//! - Half-word operation (16-bit)
//! - Word operation (32-bit)
//!
//! # Reference
//! - RM0456 Chapter 24: Cyclic redundancy check calculation unit (CRC)
//! - RM0456 Section 24.1: CRC introduction
//! - RM0456 Section 24.2: CRC main features
//! - RM0456 Section 24.3: CRC functional description
//! - RM0456 Section 24.4: CRC registers
use vstd::prelude::*;
use crate::regs::{self, RegisterWrite};
pub mod reg;

verus! {

broadcast use regs::lemma_low_mask_value;

/// CRC base address
pub const CRC_BASE: usize = 0x4002_3000;

/// CRC polynomial size
#[derive(Clone, Copy, Debug, PartialEq, Eq, Structural)]
pub enum PolynomialSize {
    /// 32-bit polynomial
    Bits32,
    /// 16-bit polynomial
    Bits16,
    /// 8-bit polynomial
    Bits8,
    /// 7-bit polynomial
    Bits7,
}

impl PolynomialSize {
    /// The register encoding of this value.
    pub open spec fn value(self) -> u32 {
        match self {
            PolynomialSize::Bits32 => 0b00u32,
            PolynomialSize::Bits16 => 0b01u32,
            PolynomialSize::Bits8 => 0b10u32,
            PolynomialSize::Bits7 => 0b11u32,
        }
    }

    /// The register encoding of this value.
    pub fn bits(self) -> (r: u32)
        ensures
            r == self.value(),
    {
        match self {
            PolynomialSize::Bits32 => 0b00,
            PolynomialSize::Bits16 => 0b01,
            PolynomialSize::Bits8 => 0b10,
            PolynomialSize::Bits7 => 0b11,
        }
    }
}

/// CRC input data format
#[derive(Clone, Copy, Debug, PartialEq, Eq, Structural)]
pub enum InputFormat {
    /// 32-bit words
    Words,
    /// 16-bit half-words
    HalfWords,
    /// 8-bit bytes
    Bytes,
}

impl InputFormat {
    /// The register encoding of this value.
    pub open spec fn value(self) -> u32 {
        match self {
            InputFormat::Words => 0b00u32,
            InputFormat::HalfWords => 0b01u32,
            InputFormat::Bytes => 0b10u32,
        }
    }

    /// The register encoding of this value.
    pub fn bits(self) -> (r: u32)
        ensures
            r == self.value(),
    {
        match self {
            InputFormat::Words => 0b00,
            InputFormat::HalfWords => 0b01,
            InputFormat::Bytes => 0b10,
        }
    }
}

/// CRC configuration
#[derive(Clone, Copy, Debug)]
pub struct Config {
    /// Polynomial size
    pub poly_size: PolynomialSize,
    /// Polynomial value
    pub polynomial: u32,
    /// Initial value
    pub initial_value: u32,
    /// Input data reversal
    pub input_reversal: bool,
    /// Output data reversal
    pub output_reversal: bool,
    /// Input data format
    pub input_format: InputFormat,
}

impl Default for Config {
    fn default() -> (r: Self)
        ensures
            r == (Config { poly_size: PolynomialSize::Bits32, polynomial: 0x04C11DB7, initial_value: 0xFFFFFFFF, input_reversal: true, output_reversal: true, input_format: InputFormat::Bytes }),
    {
        Config { poly_size: PolynomialSize::Bits32, polynomial: 0x04C11DB7, initial_value: 0xFFFFFFFF, input_reversal: true, output_reversal: true, input_format: InputFormat::Bytes }
    }
}

/// CRC instance
pub struct Crc;

/// What the control word of `init` selects, for every configuration:
/// REV_OUT (bit 7) is set exactly when the output is to be reversed, the
/// input format's code (words 0, half-words 1, bytes 2) sits at bit 5 with
/// REV_IN or-ed into bit 5, the polynomial size's code (32 bits 0, 16 bits 1,
/// 8 bits 2, 7 bits 3) sits in bits 3-4, and no other bit is set (so the
/// reset bit 0 is clear).
pub proof fn lemma_control_word(config: Config)
    ensures
        regs::bit(Crc::cr_value(config), 7) == config.output_reversal,
        regs::bit(Crc::cr_value(config), 6) == (config.input_format == InputFormat::Bytes),
        regs::bit(Crc::cr_value(config), 5) == (config.input_reversal || config.input_format == InputFormat::HalfWords),
        regs::field(Crc::cr_value(config), 3, 2) == match config.poly_size {
            PolynomialSize::Bits32 => 0u32,
            PolynomialSize::Bits16 => 1u32,
            PolynomialSize::Bits8 => 2u32,
            PolynomialSize::Bits7 => 3u32,
        },
        Crc::cr_value(config) & !0xF8u32 == 0,
{
    let p = config.poly_size.value();
    let f = config.input_format.value();
    let ri: u32 = if config.input_reversal { 1u32 << 5 } else { 0 };
    let ro: u32 = if config.output_reversal { 1u32 << 7 } else { 0 };
    let x = Crc::cr_value(config);
    assert(x == (p << 3) | (f << 5) | ri | ro);
    assert({
        &&& (x >> 3u32) & 3u32 == p
        &&& (((x >> 7u32) & 1u32) == 1u32) == (ro != 0u32)
        &&& (((x >> 6u32) & 1u32) == 1u32) == (f == 2u32)
        &&& (((x >> 5u32) & 1u32) == 1u32) == (ri != 0u32 || f == 1u32)
        &&& x & !0xF8u32 == 0u32
    }) by (bit_vector)
        requires
            p <= 3,
            f <= 2,
            ri == 0u32 || ri == (1u32 << 5),
            ro == 0u32 || ro == (1u32 << 7),
            x == (p << 3) | (f << 5) | ri | ro,
    ;
    assert((1u32 << 5) != 0u32 && (1u32 << 7) != 0u32) by (bit_vector);
}

impl Crc {
    /// Create CRC instance
    pub fn new() -> (r: Self) {
        Crc
    }

    /// CR value of `init`: polynomial size at bit 3, input format at bit 5,
    /// REV_IN (bit 5) for input reversal and REV_OUT (bit 7) for output
    /// reversal.
    pub open spec fn cr_value(config: Config) -> u32 {
        (config.poly_size.value() << 3) | (config.input_format.value() << 5) | (if config.input_reversal {
            1u32 << 5
        } else {
            0
        }) | (if config.output_reversal {
            1u32 << 7
        } else {
            0
        })
    }

    /// The writes of `init`, in order (after enabling the CRC clock): reset
    /// through CR, the polynomial, the initial value, then the control word.
    pub fn init(&self, config: &Config) -> (r: [RegisterWrite; 4])
        ensures
            r[0] == (RegisterWrite { offset: reg::CR, value: 1 }),
            r[1] == (RegisterWrite { offset: reg::POL, value: config.polynomial }),
            r[2] == (RegisterWrite { offset: reg::INIT, value: config.initial_value }),
            r[3] == (RegisterWrite { offset: reg::CR, value: Self::cr_value(*config) }),
            regs::bit(r[3].value, 7) == config.output_reversal,
            regs::bit(r[3].value, 6) == (config.input_format == InputFormat::Bytes),
            regs::bit(r[3].value, 5) == (config.input_reversal || config.input_format == InputFormat::HalfWords),
            regs::field(r[3].value, 3, 2) == match config.poly_size {
                PolynomialSize::Bits32 => 0u32,
                PolynomialSize::Bits16 => 1u32,
                PolynomialSize::Bits8 => 2u32,
                PolynomialSize::Bits7 => 3u32,
            },
            r[3].value & !0xF8u32 == 0,
    {
        proof {
            lemma_control_word(*config);
        }
        let rev_in: u32 = if config.input_reversal {
            1u32 << 5
        } else {
            0
        };
        let rev_out: u32 = if config.output_reversal {
            1u32 << 7
        } else {
            0
        };
        let cr_val: u32 = (config.poly_size.bits() << 3) | (config.input_format.bits() << 5) | rev_in
            | rev_out;
        [
            RegisterWrite { offset: reg::CR, value: 1 },
            RegisterWrite { offset: reg::POL, value: config.polynomial },
            RegisterWrite { offset: reg::INIT, value: config.initial_value },
            RegisterWrite { offset: reg::CR, value: cr_val },
        ]
    }

    /// The full write sequence of a CRC calculation over `data`: the writes
    /// of `init` (starting with the reset, so nothing of an earlier use of the
    /// unit carries over), then each byte of `data`, in order, to DR as a byte
    /// write. The sequence depends on the configuration and `data` alone.
    pub open spec fn feed_sequence(config: Config, data: Seq<u8>) -> Seq<RegisterWrite> {
        seq![
            RegisterWrite { offset: reg::CR, value: 1 },
            RegisterWrite { offset: reg::POL, value: config.polynomial },
            RegisterWrite { offset: reg::INIT, value: config.initial_value },
            RegisterWrite { offset: reg::CR, value: Self::cr_value(config) },
        ] + Seq::new(data.len(), |i: int| RegisterWrite { offset: reg::DR, value: data[i] as u32 })
    }

    /// The writes that `calculate_crc32`, `calculate_crc16` and
    /// `calculate_crc8` make before reading the result: see `feed_sequence`.
    pub fn feed(&self, config: &Config, data: &[u8]) -> (r: Vec<RegisterWrite>)
        ensures
            r@ == Self::feed_sequence(*config, data@),
    {
        let head = self.init(config);
        let mut r: Vec<RegisterWrite> = Vec::new();
        r.push(head[0]);
        r.push(head[1]);
        r.push(head[2]);
        r.push(head[3]);
        let mut i: usize = 0;
        while i < data.len()
            invariant
                i <= data@.len(),
                r@.len() == 4 + i,
                r@.subrange(0, 4) == Self::feed_sequence(*config, data@).subrange(0, 4),
                forall|k: int| 0 <= k < i ==> #[trigger] r@[4 + k] == (RegisterWrite { offset: reg::DR, value: data@[k] as u32 }),
            decreases data@.len() - i,
        {
            r.push(RegisterWrite { offset: reg::DR, value: data[i] as u32 });
            i = i + 1;
        }
        assert(r@ =~= Self::feed_sequence(*config, data@)) by {
            let f = Self::feed_sequence(*config, data@);
            assert(f.len() == r@.len());
            assert forall|k: int| 0 <= k < r@.len() implies r@[k] == f[k] by {
                if k < 4 {
                    assert(r@.subrange(0, 4)[k] == f.subrange(0, 4)[k]);
                } else {
                    assert(r@[4 + (k - 4)] == (RegisterWrite { offset: reg::DR, value: data@[k - 4] as u32 }));
                }
            }
        }
        r
    }

    /// CR word of `reset`: RESET (bit 0).
    pub fn reset(&self) -> (r: u32)
        ensures
            r == 1,
    {
        1
    }

    /// Configuration that `calculate_crc32` programs: the CRC-32 polynomial 0x04C11DB7, initial value all ones, input and output reversed, byte input.
    pub fn crc32_config() -> (r: Config)
        ensures
            r == (Config { poly_size: PolynomialSize::Bits32, polynomial: 0x04C11DB7, initial_value: 0xFFFFFFFF, input_reversal: true, output_reversal: true, input_format: InputFormat::Bytes }),
    {
        Config { poly_size: PolynomialSize::Bits32, polynomial: 0x04C11DB7, initial_value: 0xFFFFFFFF, input_reversal: true, output_reversal: true, input_format: InputFormat::Bytes }
    }

    /// Configuration that `calculate_crc16` programs: the CRC-16 polynomial 0x8005, initial value 0xFFFF, input and output reversed, byte input.
    pub fn crc16_config() -> (r: Config)
        ensures
            r == (Config { poly_size: PolynomialSize::Bits16, polynomial: 0x8005, initial_value: 0xFFFF, input_reversal: true, output_reversal: true, input_format: InputFormat::Bytes }),
    {
        Config { poly_size: PolynomialSize::Bits16, polynomial: 0x8005, initial_value: 0xFFFF, input_reversal: true, output_reversal: true, input_format: InputFormat::Bytes }
    }

    /// Configuration that `calculate_crc8` programs: the CRC-8 polynomial 0x07, initial value 0, no reversal, byte input.
    pub fn crc8_config() -> (r: Config)
        ensures
            r == (Config { poly_size: PolynomialSize::Bits8, polynomial: 0x07, initial_value: 0x00, input_reversal: false, output_reversal: false, input_format: InputFormat::Bytes }),
    {
        Config { poly_size: PolynomialSize::Bits8, polynomial: 0x07, initial_value: 0x00, input_reversal: false, output_reversal: false, input_format: InputFormat::Bytes }
    }

    /// Result of `calculate_crc32` once every byte has been fed: the data
    /// register with all bits inverted (the final XOR of CRC-32).
    pub fn calculate_crc32(&self, dr: u32) -> (r: u32)
        ensures
            r == dr ^ 0xFFFF_FFFFu32,
    {
        dr ^ 0xFFFF_FFFF
    }

    /// Result of `calculate_crc16` once every byte has been fed: the low 16
    /// bits of the data register.
    pub fn calculate_crc16(&self, dr: u32) -> (r: u16)
        ensures
            r == (dr & 0xFFFFu32) as u16,
    {
        (dr & 0xFFFF) as u16
    }

    /// Result of `calculate_crc8` once every byte has been fed: the low 8
    /// bits of the data register.
    pub fn calculate_crc8(&self, dr: u32) -> (r: u8)
        ensures
            r == (dr & 0xFFu32) as u8,
    {
        (dr & 0xFF) as u8
    }

}

/// CRC-32 of a byte stream, given the data register after the stream was fed
/// with `Crc::crc32_config` programmed: the register with all bits inverted.
pub fn crc32(dr: u32) -> (r: u32)
    ensures
        r == dr ^ 0xFFFF_FFFFu32,
{
    let crc = Crc::new();
    crc.calculate_crc32(dr)
}

/// CRC-16 of a byte stream, given the data register after the stream was fed
/// with `Crc::crc16_config` programmed: its low 16 bits.
pub fn crc16(dr: u32) -> (r: u16)
    ensures
        r == (dr & 0xFFFFu32) as u16,
{
    let crc = Crc::new();
    crc.calculate_crc16(dr)
}

/// CRC-8 of a byte stream, given the data register after the stream was fed
/// with `Crc::crc8_config` programmed: its low 8 bits.
pub fn crc8(dr: u32) -> (r: u8)
    ensures
        r == (dr & 0xFFu32) as u8,
{
    let crc = Crc::new();
    crc.calculate_crc8(dr)
}

} // verus!
