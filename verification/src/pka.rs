//! PKA - Public Key Accelerator
//!
//! # Overview
//! STM32U5 Public Key Accelerator (PKA) provides hardware acceleration for
//! asymmetric cryptographic operations including RSA and ECC.
//!
//! # Features
//! Reference: RM0456 Chapter 53: Public key accelerator (PKA)
//!
//! ## Supported Algorithms
//! - RSA (up to 4096-bit)
//! - ECC (Elliptic Curve Cryptography)
//! - ECDSA (Elliptic Curve Digital Signature Algorithm)
//! - ECDH (Elliptic Curve Diffie-Hellman)
//! - DH (Diffie-Hellman)
//!
//! ## Advanced Features
//! - Hardware acceleration for large number operations
//! - Multiple elliptic curve support
//! - DMA support
//!
//! # Reference
//! - RM0456 Chapter 53: Public key accelerator (PKA)
//! - RM0456 Section 53.1: PKA introduction
//! - RM0456 Section 53.2: PKA main features
//! - RM0456 Section 53.3: PKA functional description
//! - RM0456 Section 53.4: PKA registers
use vstd::prelude::*;
use crate::regs::{self, RegisterWrite, clear_bit, set_bit, test_bit};
pub mod reg;

verus! {

broadcast use regs::lemma_low_mask_value;

/// PKA base address
pub const PKA_BASE: usize = 0x420C_0800;

/// PKA operations
#[derive(Clone, Copy, Debug, PartialEq, Eq, Structural)]
pub enum Operation {
    /// RSA encryption/decryption
    RsaEncDec,
    /// RSA signature/verification
    RsaSignVerify,
    /// ECC sign
    EccSign,
    /// ECC verification
    EccVerify,
    /// ECC key generation
    EccKeyGen,
    /// ECDH key exchange
    Ecdh,
    /// Montgomery multiplication
    Montgomery,
}

impl Operation {
    /// The register encoding of this value.
    pub open spec fn value(self) -> u32 {
        match self {
            Operation::RsaEncDec => 0x00u32,
            Operation::RsaSignVerify => 0x01u32,
            Operation::EccSign => 0x10u32,
            Operation::EccVerify => 0x11u32,
            Operation::EccKeyGen => 0x12u32,
            Operation::Ecdh => 0x13u32,
            Operation::Montgomery => 0x20u32,
        }
    }

    /// The register encoding of this value.
    pub fn bits(self) -> (r: u32)
        ensures
            r == self.value(),
    {
        match self {
            Operation::RsaEncDec => 0x00,
            Operation::RsaSignVerify => 0x01,
            Operation::EccSign => 0x10,
            Operation::EccVerify => 0x11,
            Operation::EccKeyGen => 0x12,
            Operation::Ecdh => 0x13,
            Operation::Montgomery => 0x20,
        }
    }
}

/// PKA error codes
#[derive(Clone, Copy, Debug, PartialEq, Eq, Structural)]
pub enum PkaError {
    NoError,
    Timeout,
    IllegalParam,
    OutOfRange,
    DivByZero,
}

/// Number of SR reads after which `wait_completion` gives up.
pub const WAIT_TIMEOUT: u32 = 1_000_000;

/// What `wait_completion` does after one read of SR.
#[derive(Clone, Copy, Debug)]
pub enum WaitStep {
    /// The wait is over, with this result.
    Finished(Result<(), PkaError>),
    /// Read SR again; this many reads are left before the timeout.
    Poll(u32),
}

/// PKA instance
pub struct Pka;

impl Pka {
    /// Create PKA instance
    pub fn new() -> (r: Self) {
        Pka
    }

    /// The three RCC words of `enable`: AHB2ENR with the PKA clock enabled
    /// (bit 8), then AHB2RSTR with the PKA reset (bit 8) asserted and
    /// released.
    pub fn enable(&self, ahb2enr: u32, ahb2rstr: u32) -> (r: (u32, u32, u32))
        ensures
            r.0 == regs::with_bit(ahb2enr, 8, true),
            r.1 == regs::with_bit(ahb2rstr, 8, true),
            r.2 == regs::with_bit(r.1, 8, false),
    {
        let rst = set_bit(ahb2rstr, 8);
        (set_bit(ahb2enr, 8), rst, clear_bit(rst, 8))
    }

    /// CR with an operation started: START (bit 0) and the operation code at
    /// bit 8 or-ed in.
    pub fn start_operation(&self, operation: Operation, cr: u32) -> (r: u32)
        ensures
            r == cr | 1u32 | (operation.value() << 8u32),
    {
        cr | 1u32 | (operation.bits() << 8u32)
    }

    /// The outcome of one read of SR while `remaining` reads are left:
    /// `Ok` once the operation is done (PROC_DONE, bit 0), `IllegalParam` if
    /// an error flag (bits 1-4) is set, a timeout when this was the last read
    /// allowed, and another read otherwise. `wait_completion` starts with
    /// `WAIT_TIMEOUT` reads left.
    pub fn wait_completion(&self, remaining: u32, sr: u32) -> (r: WaitStep)
        requires
            remaining > 0,
        ensures
            regs::bit(sr, 0) ==> r == WaitStep::Finished(Ok(())),
            !regs::bit(sr, 0) && sr & 0x1Fu32 != 0 ==> r == WaitStep::Finished(Err(PkaError::IllegalParam)),
            !regs::bit(sr, 0) && sr & 0x1Fu32 == 0 && remaining == 1 ==> r == WaitStep::Finished(Err(PkaError::Timeout)),
            !regs::bit(sr, 0) && sr & 0x1Fu32 == 0 && remaining > 1 ==> r == WaitStep::Poll((remaining - 1) as u32),
    {
        if test_bit(sr, 0) {
            WaitStep::Finished(Ok(()))
        } else if sr & 0x1F != 0 {
            WaitStep::Finished(Err(PkaError::IllegalParam))
        } else if remaining == 1 {
            WaitStep::Finished(Err(PkaError::Timeout))
        } else {
            WaitStep::Poll(remaining - 1)
        }
    }

    /// Offset from `PKA_BASE` of word `offset` of the PKA RAM, which
    /// `read_ram` reads.
    pub fn ram_word_offset(&self, offset: usize) -> (r: usize)
        requires
            PKA_BASE + reg::RAM0 + offset * 4 <= usize::MAX,
        ensures
            r == reg::RAM0 + offset * 4,
    {
        reg::RAM0 + offset * 4
    }

    /// The write of `write_ram`: `value` to word `offset` of the PKA RAM.
    pub fn write_ram(&self, offset: usize, value: u32) -> (r: RegisterWrite)
        requires
            PKA_BASE + reg::RAM0 + offset * 4 <= usize::MAX,
        ensures
            r == (RegisterWrite { offset: (reg::RAM0 + offset * 4) as usize, value }),
    {
        RegisterWrite { offset: self.ram_word_offset(offset), value }
    }

}

/// The RCC words of `init`: those of `Pka::enable`.
pub fn init(ahb2enr: u32, ahb2rstr: u32) -> (r: (u32, u32, u32))
    ensures
        r.0 == regs::with_bit(ahb2enr, 8, true),
        r.1 == regs::with_bit(ahb2rstr, 8, true),
        r.2 == regs::with_bit(r.1, 8, false),
{
    let pka = Pka::new();
    pka.enable(ahb2enr, ahb2rstr)
}

} // verus!
