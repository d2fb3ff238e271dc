//! HASH - Hash Processor
//!
//! # Overview
//! The hash processor provides hardware acceleration for SHA-1, SHA-224, SHA-256,
//! and MD5 hash algorithms.
//!
//! # Features
//! - SHA-1, SHA-224, SHA-256 algorithms
//! - MD5 algorithm
//! - DMA support for efficient data processing
//! - Automatic padding
//! - HMAC support
//! - Multi-buffer support
//!
//! # Reference
//! - RM0456 Chapter 51: Hash processor (HASH)
//! - Register map: RM0456, Section 51.7, pages 2145-2169
//! - HASH Control Register (HASH_CR): RM0456, Section 51.7.1, page 2146
//! - HASH Status Register (HASH_SR): RM0456, Section 51.7.2, page 2148
//! - HASH Data Input Register (HASH_DIN): RM0456, Section 51.7.3, page 2149
//! - HASH Digest Register (HASH_HRx): RM0456, Section 51.7.5, page 2151
use vstd::prelude::*;
use crate::regs::{self, RegisterWrite, set_bit, test_bit};
pub mod reg;
pub mod bits;

verus! {

broadcast use regs::lemma_low_mask_value;

/// HASH base address
/// Reference: RM0456 Chapter 2, Table 1
pub const HASH_BASE: usize = 0x4002_1400;

#[derive(Clone, Copy, Debug, PartialEq, Eq, Structural)]
pub enum HashMode {
    SHA1,
    MD5,
    SHA224,
    SHA256,
}

#[derive(Clone, Copy, Debug, PartialEq, Eq, Structural)]
pub enum HashDatatype {
    Word,
    HalfWord,
    Byte,
    Bit,
}

/// HASH control register
#[derive(Clone, Copy, Debug)]
pub struct HashControl {
    pub digest_selected: bool,
    pub mode: HashMode,
    pub datatype: HashDatatype,
    pub dma_enable: bool,
    pub last_word_valid: bool,
    pub nb_bits_valid: u8,
    pub init: bool,
}

impl Default for HashControl {
    fn default() -> (r: Self)
        ensures
            r == (HashControl { digest_selected: false, mode: HashMode::SHA256, datatype: HashDatatype::Word, dma_enable: false, last_word_valid: true, nb_bits_valid: 0, init: false }),
    {
        HashControl { digest_selected: false, mode: HashMode::SHA256, datatype: HashDatatype::Word, dma_enable: false, last_word_valid: true, nb_bits_valid: 0, init: false }
    }
}

/// HASH digest output
#[derive(Clone, Copy, Debug)]
pub struct Digest {
    pub data: [u32; 8],
}

impl HashMode {
    /// The ALGO field (HASH_CR bits 0-2) that selects this algorithm.
    pub open spec fn algo(self) -> u32 {
        match self {
            HashMode::SHA1 => bits::cr::ALGO_SHA1,
            HashMode::MD5 => bits::cr::ALGO_MD5,
            HashMode::SHA224 => bits::cr::ALGO_SHA224,
            HashMode::SHA256 => bits::cr::ALGO_SHA256,
        }
    }

    /// The ALGO field of this algorithm: SHA-1 0, MD5 1, SHA-224 2,
    /// SHA-256 3.
    pub fn algo_bits(self) -> (r: u32)
        ensures
            r == self.algo(),
            r == match self {
                HashMode::SHA1 => 0u32,
                HashMode::MD5 => 1u32,
                HashMode::SHA224 => 2u32,
                HashMode::SHA256 => 3u32,
            },
    {
        proof {
            lemma_algo_codes();
        }
        match self {
            HashMode::SHA1 => bits::cr::ALGO_SHA1,
            HashMode::MD5 => bits::cr::ALGO_MD5,
            HashMode::SHA224 => bits::cr::ALGO_SHA224,
            HashMode::SHA256 => bits::cr::ALGO_SHA256,
        }
    }
}

impl HashDatatype {
    /// The DATATYPE field (HASH_CR bits 4-5) that selects this data type.
    pub open spec fn datatype(self) -> u32 {
        match self {
            HashDatatype::Word => bits::cr::DATATYPE_WORD,
            HashDatatype::HalfWord => bits::cr::DATATYPE_HALFWORD,
            HashDatatype::Byte => bits::cr::DATATYPE_BYTE,
            HashDatatype::Bit => bits::cr::DATATYPE_BIT,
        }
    }

    /// The DATATYPE field of this data type.
    pub fn datatype_bits(self) -> (r: u32)
        ensures
            r == self.datatype(),
    {
        match self {
            HashDatatype::Word => bits::cr::DATATYPE_WORD,
            HashDatatype::HalfWord => bits::cr::DATATYPE_HALFWORD,
            HashDatatype::Byte => bits::cr::DATATYPE_BYTE,
            HashDatatype::Bit => bits::cr::DATATYPE_BIT,
        }
    }
}

/// The HASH_CR bits that `configure` may set: ALGO, DATATYPE, DMAE and INIT.
pub open spec fn configured_bits() -> u32 {
    bits::cr::ALGO_MASK | bits::cr::DATATYPE_MASK | bits::cr::DMAE | bits::cr::INIT
}

/// The values of the HASH_CR field constants.
proof fn lemma_cr_constants()
    ensures
        bits::cr::ALGO_MASK == 7,
        bits::cr::ALGO_SHA1 == 0,
        bits::cr::ALGO_MD5 == 1,
        bits::cr::ALGO_SHA224 == 2,
        bits::cr::ALGO_SHA256 == 3,
        bits::cr::DATATYPE_MASK == 0x30,
        bits::cr::DATATYPE_WORD == 0,
        bits::cr::DATATYPE_HALFWORD == 0x10,
        bits::cr::DATATYPE_BYTE == 0x20,
        bits::cr::DATATYPE_BIT == 0x30,
        bits::cr::DMAE == 8,
        bits::cr::INIT == 4,
        configured_bits() == 0x3F,
{
    assert(bits::cr::ALGO_MASK == 7 && bits::cr::ALGO_SHA1 == 0 && bits::cr::ALGO_MD5 == 1 && bits::cr::ALGO_SHA224 == 2
        && bits::cr::ALGO_SHA256 == 3) by (bit_vector);
    assert(bits::cr::DATATYPE_MASK == 0x30 && bits::cr::DATATYPE_WORD == 0 && bits::cr::DATATYPE_HALFWORD == 0x10
        && bits::cr::DATATYPE_BYTE == 0x20 && bits::cr::DATATYPE_BIT == 0x30) by (bit_vector);
    assert(bits::cr::DMAE == 8 && bits::cr::INIT == 4 && configured_bits() == 0x3F) by (bit_vector);
}

/// Each algorithm has its own ALGO code, the one the HASH_CR definitions
/// give it: SHA-1 0, MD5 1, SHA-224 2, SHA-256 3; no two algorithms share a
/// code, so the unit computes the digest that was asked for.
pub proof fn lemma_algo_codes()
    ensures
        HashMode::SHA1.algo() == 0,
        HashMode::MD5.algo() == 1,
        HashMode::SHA224.algo() == 2,
        HashMode::SHA256.algo() == 3,
        forall|a: HashMode, b: HashMode| a != b ==> a.algo() != b.algo(),
{
    lemma_cr_constants();
}

proof fn lemma_cr_fields(a: u32, d: u32, m: u32, i: u32)
    requires
        a < 4,
        d == 0 || d == 0x10 || d == 0x20 || d == 0x30,
        m == 0 || m == 8,
        i == 0 || i == 4,
    ensures
        (a | d | m | i) & 3u32 == a,
        (a | d | m | i) & 0x30u32 == d,
        regs::bit(a | d | m | i, 3) == (m == 8),
        regs::bit(a | d | m | i, 2) == (i == 4),
        (a | d | m | i) & !0x3Fu32 == 0,
{
    let x = a | d | m | i;
    assert(x & 3u32 == a && x & 0x30u32 == d && x & !0x3Fu32 == 0u32) by (bit_vector)
        requires
            x == a | d | m | i,
            a < 4,
            d == 0 || d == 0x10 || d == 0x20 || d == 0x30,
            m == 0 || m == 8,
            i == 0 || i == 4,
    ;
    assert((((x >> 3u32) & 1u32) == 1u32) == (m == 8u32) && (((x >> 2u32) & 1u32) == 1u32) == (i == 4u32)) by (bit_vector)
        requires
            x == a | d | m | i,
            a < 4,
            d == 0 || d == 0x10 || d == 0x20 || d == 0x30,
            m == 0 || m == 8,
            i == 0 || i == 4,
    ;
}

impl HashControl {
    /// CR value of `configure`: the algorithm in ALGO, the data type in
    /// DATATYPE, DMAE when DMA is enabled and INIT when a new digest is to be
    /// started; every other bit clear.
    pub open spec fn cr_value(self) -> u32 {
        self.mode.algo() | self.datatype.datatype() | (if self.dma_enable { bits::cr::DMAE } else { 0 }) | (if self.init {
            bits::cr::INIT
        } else {
            0
        })
    }

    /// CR value that `configure` writes. The algorithm's ALGO value (0 to 3)
    /// sits in bits 0-1 (the ALGO field's bit 2 is INIT in these
    /// definitions), the data type in DATATYPE (bits 4-5), DMAE (bit 3) is
    /// set exactly when DMA is enabled, INIT (bit 2) exactly when `init` is
    /// set, and no other bit is set.
    pub fn configure(&self) -> (r: u32)
        ensures
            r == self.cr_value(),
            r & 3u32 == self.mode.algo(),
            r & 3u32 == match self.mode {
                HashMode::SHA1 => 0u32,
                HashMode::MD5 => 1u32,
                HashMode::SHA224 => 2u32,
                HashMode::SHA256 => 3u32,
            },
            r & bits::cr::DATATYPE_MASK == self.datatype.datatype(),
            regs::bit(r, 3) == self.dma_enable,
            regs::bit(r, 2) == self.init,
            r & !configured_bits() == 0,
    {
        let a = self.mode.algo_bits();
        let d = self.datatype.datatype_bits();
        let dma: u32 = if self.dma_enable { bits::cr::DMAE } else { 0 };
        let ini: u32 = if self.init { bits::cr::INIT } else { 0 };
        proof {
            lemma_cr_constants();
            lemma_algo_codes();
            lemma_cr_fields(a, d, dma, ini);
        }
        a | d | dma | ini
    }
}

/// CR word of `init`: INIT (bit 2).
pub fn init() -> (r: u32)
    ensures
        r == bits::cr::INIT,
{
    bits::cr::INIT
}

/// The writes of `compute_hash` before the computation starts: CR with the
/// default control (SHA-256, word data) and INIT set, then every word of
/// `data`, in order, to the data input register DIN. The computation is then
/// started by `start_hash`, and once `is_digest_ready` holds the eight digest
/// words are read from `digest_register(0)` to `digest_register(7)`.
pub fn compute_hash(data: &[u32]) -> (r: Vec<RegisterWrite>)
    ensures
        r@.len() == 1 + data@.len(),
        r@[0] == (RegisterWrite { offset: reg::CR, value: (HashControl { digest_selected: false, mode: HashMode::SHA256, datatype: HashDatatype::Word, dma_enable: false, last_word_valid: true, nb_bits_valid: 0, init: true }).cr_value() }),
        forall|i: int| #![trigger r@[i + 1]] 0 <= i < data@.len() ==> r@[i + 1] == (RegisterWrite { offset: reg::DIN, value: data@[i] }),
{
    let mut ctrl = HashControl::default();
    ctrl.init = true;
    let mut r: Vec<RegisterWrite> = Vec::new();
    r.push(RegisterWrite { offset: reg::CR, value: ctrl.configure() });
    let mut i: usize = 0;
    while i < data.len()
        invariant
            i <= data@.len(),
            r@.len() == 1 + i,
            r@[0] == (RegisterWrite { offset: reg::CR, value: (HashControl { digest_selected: false, mode: HashMode::SHA256, datatype: HashDatatype::Word, dma_enable: false, last_word_valid: true, nb_bits_valid: 0, init: true }).cr_value() }),
            forall|k: int| #![trigger r@[k + 1]] 0 <= k < i ==> r@[k + 1] == (RegisterWrite { offset: reg::DIN, value: data@[k] }),
        decreases data@.len() - i,
    {
        r.push(RegisterWrite { offset: reg::DIN, value: data[i] });
        i = i + 1;
    }
    r
}

/// Offset of digest word `i` of `compute_hash`: HR0 + 4 * i.
pub fn digest_register(i: usize) -> (r: usize)
    requires
        i < 8,
    ensures
        r == reg::HR0 + 4 * i,
{
    reg::HR0 + 4 * i
}

/// CR with the digest calculation started (bit 0).
pub fn start_hash(cr: u32) -> (r: u32)
    ensures
        r == regs::with_bit(cr, 0, true),
{
    set_bit(cr, 0)
}

/// Whether SR reports the digest calculation complete (DCIS, bit 1);
/// `compute_hash` waits for it before reading the digest.
pub fn is_digest_ready(sr: u32) -> (r: bool)
    ensures
        r == regs::bit(sr, 1),
{
    test_bit(sr, 1)
}

} // verus!
