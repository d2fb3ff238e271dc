//! RNG - Random Number Generator
//!
//! # Overview
//! STM32U5 Random Number Generator (RNG) provides hardware-based random number
//! generation compliant with NIST SP 800-90B standard.
//!
//! # Features
//! Reference: RM0456 Chapter 48: Random number generator (RNG)
//!
//! ## Random Number Generation
//! - Hardware random number generator
//! - Compliant with NIST SP 800-90B standard
//! - 32-bit random number output
//!
//! ## Advanced Features
//! - DMA support
//! - Interrupt support
//! - Continuous/single-shot mode
//!
//! # Reference
//! - RM0456 Chapter 48: Random number generator (RNG)
//! - RM0456 Section 48.1: RNG introduction
//! - RM0456 Section 48.2: RNG main features
//! - RM0456 Section 48.3: RNG functional description
//! - RM0456 Section 48.4: RNG registers
use vstd::prelude::*;
use crate::aes::{byte_of_word, le_byte};
use crate::regs::{self, clear_bit, flag_bits, set_bit, test_bit};
pub mod reg;

verus! {

broadcast use regs::lemma_low_mask_value;

/// RNG base address
pub const RNG_BASE: usize = 0x4204_0000;

/// RNG status
#[derive(Clone, Copy, Debug, PartialEq, Eq, Structural)]
pub enum RngStatus {
    /// RNG ready
    Ready,
    /// RNG busy
    Busy,
    /// Seed error
    SeedError,
    /// Clock error
    ClockError,
    /// Health test error
    HealthTestError,
}

/// RNG configuration
#[derive(Clone, Copy, Debug)]
pub struct Config {
    /// Enable RNG
    pub enable: bool,
    /// Enable interrupt
    pub interrupt_enable: bool,
    /// RNG clock divider
    pub clock_divider: u8,
}

impl Default for Config {
    fn default() -> (r: Self)
        ensures
            r == (Config { enable: true, interrupt_enable: false, clock_divider: 0 }),
    {
        Config { enable: true, interrupt_enable: false, clock_divider: 0 }
    }
}

/// RNG instance
/// Number of values in `min..=max`.
pub open spec fn range_size(min: u32, max: u32) -> u32 {
    (max - min + 1) as u32
}

/// Rejection limit of `read_range` for `range` values: the largest multiple
/// of `range` that fits in 32 bits.
pub open spec fn accept_limit(range: u32) -> u32 {
    ((u32::MAX / range) * range) as u32
}

/// The accepted words of `read_range` are a whole number of copies of the
/// range, so every value in the range is reached by exactly
/// `accept_limit(range) / range` of them, and fewer than `range` words are
/// ever rejected.
pub proof fn lemma_accept_limit(range: u32)
    requires
        range > 0,
    ensures
        (u32::MAX / range) * range <= u32::MAX,
        accept_limit(range) as int == (u32::MAX / range) * range,
        accept_limit(range) % range == 0,
        u32::MAX - accept_limit(range) < range,
{
    let m: int = u32::MAX as int;
    let d: int = range as int;
    let q: int = m / d;
    vstd::arithmetic::div_mod::lemma_fundamental_div_mod(m, d);
    assert(q * d <= m) by (nonlinear_arith)
        requires
            m == d * q + m % d,
            0 <= m % d,
    ;
    vstd::arithmetic::div_mod::lemma_mod_multiples_basic(q, d);
}

pub struct Rng {
    base: usize,
}

impl Rng {
    /// Base address of this instance's register block.
    pub closed spec fn base_addr(&self) -> usize {
        self.base
    }

    /// Base address of this instance's register block.
    pub fn base(&self) -> (r: usize)
        ensures
            r == self.base_addr(),
    {
        self.base
    }

    /// Create new RNG instance
    pub fn new() -> (r: Self)
        ensures
            r.base_addr() == RNG_BASE,
    {
        Self { base: RNG_BASE }
    }

    /// RCC AHB2ENR with the RNG clock enabled (bit 5), the first step of
    /// `init`.
    pub fn enable_clock(&self, ahb2enr: u32) -> (r: u32)
        ensures
            r == regs::with_bit(ahb2enr, 5, true),
    {
        set_bit(ahb2enr, 5)
    }

    /// CR value for a configuration: the generator (bit 2) and its interrupt
    /// (bit 3) enabled as asked, and the clock divider at bit 8.
    pub open spec fn cr_value(config: Config) -> u32 {
        (regs::flag(config.enable) << 2u32) | (regs::flag(config.interrupt_enable) << 3u32) | ((config.clock_divider as u32) << 8u32)
    }

    /// CR value written by `init` once the clock is enabled.
    pub fn init(&self, config: &Config) -> (r: u32)
        ensures
            r == Self::cr_value(*config),
    {
        (flag_bits(config.enable) << 2u32) | (flag_bits(config.interrupt_enable) << 3u32) | ((config.clock_divider as u32) << 8u32)
    }

    /// CR with the generator enabled (RNGEN, bit 2).
    pub fn enable(&self, cr: u32) -> (r: u32)
        ensures
            r == regs::with_bit(cr, 2, true),
    {
        set_bit(cr, 2)
    }

    /// CR with the generator disabled (RNGEN, bit 2).
    pub fn disable(&self, cr: u32) -> (r: u32)
        ensures
            r == regs::with_bit(cr, 2, false),
    {
        clear_bit(cr, 2)
    }

    /// The status that SR reports: busy until data is ready (DRDY, bit 0),
    /// then a clock error (CECS, bit 2) before a seed error (SECS, bit 1),
    /// else ready.
    pub fn get_status(&self, sr: u32) -> (r: RngStatus)
        ensures
            r == (if !regs::bit(sr, 0) {
                RngStatus::Busy
            } else if regs::bit(sr, 2) {
                RngStatus::ClockError
            } else if regs::bit(sr, 1) {
                RngStatus::SeedError
            } else {
                RngStatus::Ready
            }),
    {
        if !test_bit(sr, 0) {
            return RngStatus::Busy;
        }
        if test_bit(sr, 2) {
            return RngStatus::ClockError;
        }
        if test_bit(sr, 1) {
            return RngStatus::SeedError;
        }
        RngStatus::Ready
    }

    /// Whether a random word is ready (DRDY, bit 0 of SR).
    pub fn is_ready(&self, sr: u32) -> (r: bool)
        ensures
            r == regs::bit(sr, 0),
    {
        test_bit(sr, 0)
    }

    /// `read_multiple`: fills `buffer` with the words `reads` taken from DR,
    /// one per word, in order.
    pub fn read_multiple(&self, buffer: &mut [u32], reads: &[u32])
        requires
            reads@.len() == old(buffer)@.len(),
        ensures
            final(buffer)@ == reads@,
    {
        let mut i: usize = 0;
        while i < buffer.len()
            invariant
                i <= buffer@.len(),
                buffer@.len() == reads@.len(),
                forall|k: int| 0 <= k < i ==> #[trigger] buffer@[k] == reads@[k],
            decreases buffer@.len() - i,
        {
            buffer[i] = reads[i];
            i = i + 1;
        }
        assert(buffer@ =~= reads@);
    }

    /// The outcome of one random word `random` in `read_range`: words below
    /// `accept_limit` are accepted and mapped to `min + random % range`;
    /// others are rejected, and `read_range` draws again.
    pub fn read_range(&self, min: u32, max: u32, random: u32) -> (r: Option<u32>)
        requires
            min < max,
            max - min < u32::MAX,
        ensures
            random < accept_limit(range_size(min, max)) ==> r == Some((min + random % range_size(min, max)) as u32),
            random >= accept_limit(range_size(min, max)) ==> r is None,
            r matches Some(v) ==> min <= v <= max,
    {
        let range: u32 = max - min + 1;
        proof {
            lemma_accept_limit(range);
        }
        let max_valid: u32 = (u32::MAX / range) * range;
        if random >= max_valid {
            None
        } else {
            Some(min + random % range)
        }
    }

}

/// CR value of `init_rng_default`: the default configuration, the generator
/// enabled with no interrupt and no clock division.
pub fn init_rng_default() -> (r: u32)
    ensures
        r == Rng::cr_value(Config { enable: true, interrupt_enable: false, clock_divider: 0 }),
{
    let rng = Rng::new();
    rng.init(&Config::default())
}

/// `random_u64`: the first word read (`low`) in the low half and the second
/// (`high`) in the high half.
pub fn random_u64(low: u32, high: u32) -> (r: u64)
    ensures
        r == ((high as u64) << 32u64) | (low as u64),
{
    ((high as u64) << 32u64) | (low as u64)
}

/// `random_bytes`: fills `buffer` with the little-endian bytes of the words
/// `words` read from DR, one word per four bytes; the bytes of the last word
/// past the end of the buffer are dropped.
pub fn random_bytes(buffer: &mut [u8], words: &[u32])
    requires
        words@.len() == (old(buffer)@.len() + 3) / 4,
    ensures
        final(buffer)@.len() == old(buffer)@.len(),
        forall|i: int| 0 <= i < final(buffer)@.len() ==> #[trigger] final(buffer)@[i] == le_byte(words@[i / 4], (i % 4) as u32),
{
    let mut i: usize = 0;
    while i < buffer.len()
        invariant
            i <= buffer@.len(),
            buffer@.len() == old(buffer)@.len(),
            words@.len() == (buffer@.len() + 3) / 4,
            forall|k: int| 0 <= k < i ==> #[trigger] buffer@[k] == le_byte(words@[k / 4], (k % 4) as u32),
        decreases buffer@.len() - i,
    {
        buffer[i] = byte_of_word(words[i / 4], (i % 4) as u32);
        i = i + 1;
    }
}

} // verus!
