//! CORDIC - Coordinate Rotation Digital Computer
//!
//! The STM32U5 CORDIC coprocessor computes:
//! - sin, cos, sinh, cosh, atan, atanh, sqrt, ln
//! - on 32-bit or 16-bit arguments
//! - in Q1.31 or Q1.15 fixed point
//! - with DMA transfers
use vstd::prelude::*;
use crate::regs::{self, test_bit};
pub mod reg;

verus! {

broadcast use regs::lemma_low_mask_value;

/// CORDIC base address
pub const CORDIC_BASE: usize = 0x4004_0C00;

/// CORDIC function
#[derive(Clone, Copy, Debug, PartialEq, Eq, Structural)]
pub enum Function {
    /// Cosine
    Cosine,
    /// Sine
    Sine,
    /// Phase
    Phase,
    /// Modulus
    Modulus,
    /// Arctangent
    Arctangent,
    /// Hyperbolic cosine
    HyperbolicCosine,
    /// Hyperbolic sine
    HyperbolicSine,
    /// Arctanh
    Arctanh,
    /// Natural logarithm
    NaturalLog,
    /// Square root
    SquareRoot,
}

impl Function {
    /// The register encoding of this value.
    pub open spec fn value(self) -> u32 {
        match self {
            Function::Cosine => 0b00000u32,
            Function::Sine => 0b00001u32,
            Function::Phase => 0b00010u32,
            Function::Modulus => 0b00011u32,
            Function::Arctangent => 0b00100u32,
            Function::HyperbolicCosine => 0b10000u32,
            Function::HyperbolicSine => 0b10001u32,
            Function::Arctanh => 0b10100u32,
            Function::NaturalLog => 0b10101u32,
            Function::SquareRoot => 0b10110u32,
        }
    }

    /// The register encoding of this value.
    pub fn bits(self) -> (r: u32)
        ensures
            r == self.value(),
    {
        match self {
            Function::Cosine => 0b00000,
            Function::Sine => 0b00001,
            Function::Phase => 0b00010,
            Function::Modulus => 0b00011,
            Function::Arctangent => 0b00100,
            Function::HyperbolicCosine => 0b10000,
            Function::HyperbolicSine => 0b10001,
            Function::Arctanh => 0b10100,
            Function::NaturalLog => 0b10101,
            Function::SquareRoot => 0b10110,
        }
    }
}

/// CORDIC precision
#[derive(Clone, Copy, Debug, PartialEq, Eq, Structural)]
pub enum Precision {
    /// 6 iterations (for 16-bit data)
    Iter6,
    /// 8 iterations
    Iter8,
    /// 10 iterations
    Iter10,
    /// 12 iterations
    Iter12,
    /// 14 iterations
    Iter14,
    /// 16 iterations
    Iter16,
    /// 20 iterations
    Iter20,
    /// 24 iterations (for 32-bit data)
    Iter24,
    /// 28 iterations
    Iter28,
    /// 32 iterations
    Iter32,
    /// 36 iterations
    Iter36,
    /// 40 iterations
    Iter40,
    /// 44 iterations
    Iter44,
    /// 48 iterations
    Iter48,
    /// 52 iterations
    Iter52,
}

impl Precision {
    /// The register encoding of this value.
    pub open spec fn value(self) -> u32 {
        match self {
            Precision::Iter6 => 0b0001u32,
            Precision::Iter8 => 0b0010u32,
            Precision::Iter10 => 0b0011u32,
            Precision::Iter12 => 0b0100u32,
            Precision::Iter14 => 0b0101u32,
            Precision::Iter16 => 0b0110u32,
            Precision::Iter20 => 0b0111u32,
            Precision::Iter24 => 0b1000u32,
            Precision::Iter28 => 0b1001u32,
            Precision::Iter32 => 0b1010u32,
            Precision::Iter36 => 0b1011u32,
            Precision::Iter40 => 0b1100u32,
            Precision::Iter44 => 0b1101u32,
            Precision::Iter48 => 0b1110u32,
            Precision::Iter52 => 0b1111u32,
        }
    }

    /// The register encoding of this value.
    pub fn bits(self) -> (r: u32)
        ensures
            r == self.value(),
    {
        match self {
            Precision::Iter6 => 0b0001,
            Precision::Iter8 => 0b0010,
            Precision::Iter10 => 0b0011,
            Precision::Iter12 => 0b0100,
            Precision::Iter14 => 0b0101,
            Precision::Iter16 => 0b0110,
            Precision::Iter20 => 0b0111,
            Precision::Iter24 => 0b1000,
            Precision::Iter28 => 0b1001,
            Precision::Iter32 => 0b1010,
            Precision::Iter36 => 0b1011,
            Precision::Iter40 => 0b1100,
            Precision::Iter44 => 0b1101,
            Precision::Iter48 => 0b1110,
            Precision::Iter52 => 0b1111,
        }
    }
}

/// CORDIC scale factor
#[derive(Clone, Copy, Debug, PartialEq, Eq, Structural)]
pub enum Scale {
    /// Scale factor 1
    Scale1,
    /// Scale factor 2
    Scale2,
    /// Scale factor 4
    Scale4,
    /// Scale factor 8
    Scale8,
}

impl Scale {
    /// The register encoding of this value.
    pub open spec fn value(self) -> u32 {
        match self {
            Scale::Scale1 => 0b00u32,
            Scale::Scale2 => 0b01u32,
            Scale::Scale4 => 0b10u32,
            Scale::Scale8 => 0b11u32,
        }
    }

    /// The register encoding of this value.
    pub fn bits(self) -> (r: u32)
        ensures
            r == self.value(),
    {
        match self {
            Scale::Scale1 => 0b00,
            Scale::Scale2 => 0b01,
            Scale::Scale4 => 0b10,
            Scale::Scale8 => 0b11,
        }
    }
}

/// One CORDIC computation as the peripheral runs it: the CSR value that
/// selects the function, then one or two arguments written to WDATA. The
/// results are read from RDATA once CSR reports them ready.
#[derive(Clone, Copy, Debug, PartialEq, Eq, Structural)]
pub struct CordicOp {
    /// Control and status word selecting function, precision and scale.
    pub csr: u32,
    /// First argument.
    pub arg1: i32,
    /// Second argument, for the two-argument functions.
    pub arg2: Option<i32>,
}

/// CORDIC instance
pub struct Cordic;

impl Cordic {
    pub fn new() -> (r: Self) {
        Cordic
    }

    /// CSR value of `init`: the function in bits 0-4, the precision at bit 4,
    /// the scale at bit 8 and the result-ready interrupt enable (bit 16).
    pub open spec fn csr_value(func: Function, precision: Precision, scale: Scale) -> u32 {
        func.value() | (precision.value() << 4) | (scale.value() << 8) | (1u32 << 16)
    }

    /// CSR value that `init` writes (after enabling the CORDIC clock).
    pub fn init(&self, func: Function, precision: Precision, scale: Scale) -> (r: u32)
        ensures
            r == Self::csr_value(func, precision, scale),
    {
        func.bits() | (precision.bits() << 4) | (scale.bits() << 8) | (1u32 << 16)
    }

    /// WDATA word of `write_arg1`: the bits of `value`.
    pub fn write_arg1(&self, value: i32) -> (r: u32)
        ensures
            r == value as u32,
    {
        value as u32
    }

    /// WDATA word of `write_arg2`: the bits of `value`.
    pub fn write_arg2(&self, value: i32) -> (r: u32)
        ensures
            r == value as u32,
    {
        value as u32
    }

    /// A result read from RDATA, as a signed q1.31 value.
    pub fn read_res1(&self, rdata: u32) -> (r: i32)
        ensures
            r == rdata as i32,
    {
        rdata as i32
    }

    /// The second result read from RDATA, as a signed q1.31 value.
    pub fn read_res2(&self, rdata: u32) -> (r: i32)
        ensures
            r == rdata as i32,
    {
        rdata as i32
    }

    /// Whether CSR reports the result ready (RRDY, bit 31).
    pub fn is_ready(&self, csr: u32) -> (r: bool)
        ensures
            r == regs::bit(csr, 31),
    {
        test_bit(csr, 31)
    }

    /// Sine of a q1.31 angle (in units of pi): the result is the first value
    /// read back. Runs with 24 iterations and scale 1.
    pub fn sin(&self, angle_q31: i32) -> (r: CordicOp)
        ensures
            r == (CordicOp { csr: Self::csr_value(Function::Sine, Precision::Iter24, Scale::Scale1), arg1: angle_q31, arg2: None }),
    {
        CordicOp { csr: self.init(Function::Sine, Precision::Iter24, Scale::Scale1), arg1: angle_q31, arg2: None }
    }

    /// Cosine of a q1.31 angle (in units of pi): the result is the first value
    /// read back. Runs with 24 iterations and scale 1.
    pub fn cos(&self, angle_q31: i32) -> (r: CordicOp)
        ensures
            r == (CordicOp { csr: Self::csr_value(Function::Cosine, Precision::Iter24, Scale::Scale1), arg1: angle_q31, arg2: None }),
    {
        CordicOp { csr: self.init(Function::Cosine, Precision::Iter24, Scale::Scale1), arg1: angle_q31, arg2: None }
    }

    /// Sine and cosine of a q1.31 angle: the cosine function, whose second
    /// result is the sine and first result the cosine. Runs with 24 iterations and scale 1.
    pub fn sin_cos(&self, angle_q31: i32) -> (r: CordicOp)
        ensures
            r == (CordicOp { csr: Self::csr_value(Function::Cosine, Precision::Iter24, Scale::Scale1), arg1: angle_q31, arg2: None }),
    {
        CordicOp { csr: self.init(Function::Cosine, Precision::Iter24, Scale::Scale1), arg1: angle_q31, arg2: None }
    }

    /// The (sine, cosine) pair of `sin_cos`, given the two values read from
    /// RDATA after its run, in the order they were read: the first is the
    /// cosine (RES1) and the second the sine (RES2).
    pub fn sin_cos_result(&self, first: u32, second: u32) -> (r: (i32, i32))
        ensures
            r == (second as i32, first as i32),
    {
        (self.read_res2(second), self.read_res1(first))
    }

    /// Square root of a q1.31 value. Runs with 24 iterations and scale 1.
    pub fn sqrt(&self, value_q31: i32) -> (r: CordicOp)
        ensures
            r == (CordicOp { csr: Self::csr_value(Function::SquareRoot, Precision::Iter24, Scale::Scale1), arg1: value_q31, arg2: None }),
    {
        CordicOp { csr: self.init(Function::SquareRoot, Precision::Iter24, Scale::Scale1), arg1: value_q31, arg2: None }
    }

    /// Natural logarithm of a q1.31 value. Runs with 24 iterations and scale 1.
    pub fn ln(&self, value_q31: i32) -> (r: CordicOp)
        ensures
            r == (CordicOp { csr: Self::csr_value(Function::NaturalLog, Precision::Iter24, Scale::Scale1), arg1: value_q31, arg2: None }),
    {
        CordicOp { csr: self.init(Function::NaturalLog, Precision::Iter24, Scale::Scale1), arg1: value_q31, arg2: None }
    }

    /// Arc tangent of `y / x` in q1.31: `x` is written first, then `y`; runs
    /// with 24 iterations and scale 1.
    pub fn atan2(&self, y: i32, x: i32) -> (r: CordicOp)
        ensures
            r == (CordicOp { csr: Self::csr_value(Function::Arctangent, Precision::Iter24, Scale::Scale1), arg1: x, arg2: Some(y) }),
    {
        CordicOp { csr: self.init(Function::Arctangent, Precision::Iter24, Scale::Scale1), arg1: x, arg2: Some(y) }
    }

    /// Modulus of the vector (x, y) in q1.31: `x` is written first, then `y`;
    /// runs with 24 iterations and scale 1.
    pub fn modulus(&self, x: i32, y: i32) -> (r: CordicOp)
        ensures
            r == (CordicOp { csr: Self::csr_value(Function::Modulus, Precision::Iter24, Scale::Scale1), arg1: x, arg2: Some(y) }),
    {
        CordicOp { csr: self.init(Function::Modulus, Precision::Iter24, Scale::Scale1), arg1: x, arg2: Some(y) }
    }

}

} // verus!
