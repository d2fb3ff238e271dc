//! SAES - Secure AES Coprocessor
//!
//! # Overview
//! STM32U5 Secure AES (SAES) provides hardware acceleration for AES encryption/decryption
//! with enhanced security features for TrustZone applications.
//!
//! # Features
//! Reference: RM0456 Chapter 50: Secure AES coprocessor (SAES)
//!
//! ## AES Features
//! - AES-128/192/256 encryption and decryption
//! - ECB, CBC, CTR, GCM, CCM modes
//! - DMA support
//! - Key protection in secure memory
//!
//! ## Security Features
//! - Secure key storage
//! - Hardware key derivation
//! - Side-channel attack protection
//! - TrustZone support
//!
//! # Reference
//! - RM0456 Chapter 50: Secure AES coprocessor (SAES)
//! - Register map: RM0456, Section 50.4, pages 2085-2107
//! - SAES Control Register (SAES_CR): RM0456, Section 50.4.1, page 2086
//! - SAES Status Register (SAES_SR): RM0456, Section 50.4.2, page 2088
//! - SAES Key Registers (SAES_KEYRx): RM0456, Section 50.4.5, page 2091
//! - SAES Initialization Vector Registers (SAES_IVRx): RM0456, Section 50.4.6, page 2092
use vstd::prelude::*;
use crate::regs::{self, RegisterWrite, set_field, test_bit};
pub mod reg;
pub mod bits;

verus! {

broadcast use regs::lemma_low_mask_value;

/// SAES base address
pub const SAES_BASE: usize = 0x4002_8000;

/// SAES operation mode
#[derive(Clone, Copy, Debug, PartialEq, Eq, Structural)]
pub enum Mode {
    /// Encryption mode
    Encrypt,
    /// Decryption mode
    Decrypt,
}

impl Mode {
    /// The register encoding of this value.
    pub open spec fn value(self) -> u32 {
        match self {
            Mode::Encrypt => 0u32,
            Mode::Decrypt => 1u32,
        }
    }

    /// The register encoding of this value.
    pub fn bits(self) -> (r: u32)
        ensures
            r == self.value(),
    {
        match self {
            Mode::Encrypt => 0,
            Mode::Decrypt => 1,
        }
    }
}

/// SAES key size
#[derive(Clone, Copy, Debug, PartialEq, Eq, Structural)]
pub enum KeySize {
    /// 128-bit key
    Key128,
    /// 192-bit key
    Key192,
    /// 256-bit key
    Key256,
}

impl KeySize {
    /// The register encoding of this value.
    pub open spec fn value(self) -> u32 {
        match self {
            KeySize::Key128 => 0u32,
            KeySize::Key192 => 1u32,
            KeySize::Key256 => 2u32,
        }
    }

    /// The register encoding of this value.
    pub fn bits(self) -> (r: u32)
        ensures
            r == self.value(),
    {
        match self {
            KeySize::Key128 => 0,
            KeySize::Key192 => 1,
            KeySize::Key256 => 2,
        }
    }
}

/// SAES cryptographic mode
#[derive(Clone, Copy, Debug, PartialEq, Eq, Structural)]
pub enum CryptoMode {
    /// Electronic Codebook (ECB)
    ECB,
    /// Cipher Block Chaining (CBC)
    CBC,
    /// Counter (CTR)
    CTR,
    /// Galois/Counter Mode (GCM)
    GCM,
}

impl CryptoMode {
    /// The register encoding of this value.
    pub open spec fn value(self) -> u32 {
        match self {
            CryptoMode::ECB => 0u32,
            CryptoMode::CBC => 1u32,
            CryptoMode::CTR => 2u32,
            CryptoMode::GCM => 3u32,
        }
    }

    /// The register encoding of this value.
    pub fn bits(self) -> (r: u32)
        ensures
            r == self.value(),
    {
        match self {
            CryptoMode::ECB => 0,
            CryptoMode::CBC => 1,
            CryptoMode::CTR => 2,
            CryptoMode::GCM => 3,
        }
    }
}

/// SAES instance
pub struct Saes;

impl Saes {
    /// Create SAES instance
    pub fn new() -> (r: Self) {
        Saes
    }

    /// CR value written by `enable`: only EN (bit 0) set.
    pub fn enable(&self) -> (r: u32)
        ensures
            r == 1,
    {
        1
    }

    /// CR value written by `disable`: everything cleared.
    pub fn disable(&self) -> (r: u32)
        ensures
            r == 0,
    {
        0
    }

    /// CR with the direction (bit 1) set to `mode`.
    pub fn set_mode(&self, mode: Mode, cr: u32) -> (r: u32)
        ensures
            r == regs::with_field(cr, 1, 1, mode.value()),
            regs::field(r, 1, 1) == mode.value(),
    {
        proof {
            regs::lemma_with_field(cr, 1, 1, mode.value());
        }
        set_field(cr, 1, 1, mode.bits())
    }

    /// CR with the key size (bits 3-4) set to `key_size`.
    pub fn set_key_size(&self, key_size: KeySize, cr: u32) -> (r: u32)
        ensures
            r == regs::with_field(cr, 3, 2, key_size.value()),
            regs::field(r, 3, 2) == key_size.value(),
    {
        proof {
            regs::lemma_with_field(cr, 3, 2, key_size.value());
        }
        set_field(cr, 3, 2, key_size.bits())
    }

    /// CR with the chaining mode (bits 5-8) set to `crypto_mode`.
    pub fn set_crypto_mode(&self, crypto_mode: CryptoMode, cr: u32) -> (r: u32)
        ensures
            r == regs::with_field(cr, 5, 4, crypto_mode.value()),
            regs::field(r, 5, 4) == crypto_mode.value(),
    {
        proof {
            regs::lemma_with_field(cr, 5, 4, crypto_mode.value());
        }
        set_field(cr, 5, 4, crypto_mode.bits())
    }

    /// The writes of `write_key`: key word `i` to offset KEYR0 + 4 × `i`, in
    /// order.
    pub fn write_key(&self, key: &[u32; 8]) -> (r: Vec<RegisterWrite>)
        ensures
            r@.len() == 8,
            forall|i: int| 0 <= i < 8 ==> #[trigger] r@[i] == (RegisterWrite { offset: (reg::KEYR0 + 4 * i) as usize, value: key[i] }),
    {
        let mut r: Vec<RegisterWrite> = Vec::new();
        let mut i: usize = 0;
        while i < 8
            invariant
                i <= 8,
                r@.len() == i,
                forall|k: int| 0 <= k < i ==> #[trigger] r@[k] == (RegisterWrite { offset: (reg::KEYR0 + 4 * k) as usize, value: key[k] }),
            decreases 8 - i,
        {
            r.push(RegisterWrite { offset: reg::KEYR0 + i * 4, value: key[i] });
            i = i + 1;
        }
        r
    }

    /// The writes of `write_iv`: IV word `i` to offset IVR0 + 4 × `i`, in
    /// order.
    pub fn write_iv(&self, iv: &[u32; 4]) -> (r: Vec<RegisterWrite>)
        ensures
            r@.len() == 4,
            forall|i: int| 0 <= i < 4 ==> #[trigger] r@[i] == (RegisterWrite { offset: (reg::IVR0 + 4 * i) as usize, value: iv[i] }),
    {
        let mut r: Vec<RegisterWrite> = Vec::new();
        let mut i: usize = 0;
        while i < 4
            invariant
                i <= 4,
                r@.len() == i,
                forall|k: int| 0 <= k < i ==> #[trigger] r@[k] == (RegisterWrite { offset: (reg::IVR0 + 4 * k) as usize, value: iv[k] }),
            decreases 4 - i,
        {
            r.push(RegisterWrite { offset: reg::IVR0 + i * 4, value: iv[i] });
            i = i + 1;
        }
        r
    }

    /// Whether the processor is busy (BUSY, bit 0 of SR).
    pub fn is_busy(&self, sr: u32) -> (r: bool)
        ensures
            r == regs::bit(sr, 0),
    {
        test_bit(sr, 0)
    }

}

} // verus!
