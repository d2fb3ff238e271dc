//! AES - Advanced Encryption Standard
//!
//! The STM32U5 AES peripheral offers:
//! - AES-128, AES-192 and AES-256 keys
//! - ECB, CBC, CTR, GCM and CCM chaining modes
//! - encryption and decryption
//! - DMA transfers
//! - key derivation for decryption
//! - GCM/CCM authentication
//!
//! Encryption Modes
//! - **ECB** (Electronic Codebook): each block on its own
//! - **CBC** (Cipher Block Chaining): each block chained to the previous one
//! - **CTR** (Counter): a keystream from an incremented counter
//! - **GCM** (Galois/Counter Mode): counter mode with authentication
//! - **CCM** (Counter with CBC-MAC): counter mode with a CBC-MAC tag
use vstd::prelude::*;
use crate::regs::{self, clear_bit, set_bit, test_bit};
pub mod reg;

verus! {

broadcast use regs::lemma_low_mask_value;

/// AES base address
pub const AES_BASE: usize = 0x420C_0000;

/// AES key size
#[derive(Clone, Copy, Debug, PartialEq, Eq, Structural)]
pub enum KeySize {
    /// AES-128 (128-bit key)
    Bits128,
    /// AES-192 (192-bit key)
    Bits192,
    /// AES-256 (256-bit key)
    Bits256,
}

impl KeySize {
    /// The register encoding of this value.
    pub open spec fn value(self) -> u32 {
        match self {
            KeySize::Bits128 => 0b00u32,
            KeySize::Bits192 => 0b01u32,
            KeySize::Bits256 => 0b10u32,
        }
    }

    /// The register encoding of this value.
    pub fn bits(self) -> (r: u32)
        ensures
            r == self.value(),
    {
        match self {
            KeySize::Bits128 => 0b00,
            KeySize::Bits192 => 0b01,
            KeySize::Bits256 => 0b10,
        }
    }
}

/// AES encryption/decryption mode
#[derive(Clone, Copy, Debug, PartialEq, Eq, Structural)]
pub enum Mode {
    /// Electronic Codebook mode
    Ecb,
    /// Cipher Block Chaining mode
    Cbc,
    /// Counter mode
    Ctr,
    /// Galois/Counter Mode (with authentication)
    Gcm,
    /// Counter with CBC-MAC mode (with authentication)
    Ccm,
}

impl Mode {
    /// The register encoding of this value.
    pub open spec fn value(self) -> u32 {
        match self {
            Mode::Ecb => 0b000u32,
            Mode::Cbc => 0b001u32,
            Mode::Ctr => 0b010u32,
            Mode::Gcm => 0b011u32,
            Mode::Ccm => 0b100u32,
        }
    }

    /// The register encoding of this value.
    pub fn bits(self) -> (r: u32)
        ensures
            r == self.value(),
    {
        match self {
            Mode::Ecb => 0b000,
            Mode::Cbc => 0b001,
            Mode::Ctr => 0b010,
            Mode::Gcm => 0b011,
            Mode::Ccm => 0b100,
        }
    }
}

/// AES operation type
#[derive(Clone, Copy, Debug, PartialEq, Eq, Structural)]
pub enum Operation {
    /// Encryption
    Encrypt,
    /// Decryption
    Decrypt,
}

impl Operation {
    /// The register encoding of this value.
    pub open spec fn value(self) -> u32 {
        match self {
            Operation::Encrypt => 0u32,
            Operation::Decrypt => 1u32,
        }
    }

    /// The register encoding of this value.
    pub fn bits(self) -> (r: u32)
        ensures
            r == self.value(),
    {
        match self {
            Operation::Encrypt => 0,
            Operation::Decrypt => 1,
        }
    }
}

/// AES data format
#[derive(Clone, Copy, Debug, PartialEq, Eq, Structural)]
pub enum DataType {
    /// 32-bit data
    Word,
    /// 16-bit data (half-word)
    HalfWord,
    /// 8-bit data (byte)
    Byte,
    /// Bit data
    Bit,
}

impl DataType {
    /// The register encoding of this value.
    pub open spec fn value(self) -> u32 {
        match self {
            DataType::Word => 0b00u32,
            DataType::HalfWord => 0b01u32,
            DataType::Byte => 0b10u32,
            DataType::Bit => 0b11u32,
        }
    }

    /// The register encoding of this value.
    pub fn bits(self) -> (r: u32)
        ensures
            r == self.value(),
    {
        match self {
            DataType::Word => 0b00,
            DataType::HalfWord => 0b01,
            DataType::Byte => 0b10,
            DataType::Bit => 0b11,
        }
    }
}

/// AES status
#[derive(Clone, Copy, Debug, PartialEq, Eq, Structural)]
pub enum AesStatus {
    /// AES is ready
    Ready,
    /// AES is busy
    Busy,
    /// GCM/CCM authentication phase
    AuthPhase,
    /// Error occurred
    Error,
}

/// AES configuration
#[derive(Clone, Copy, Debug)]
pub struct Config {
    /// Key size
    pub key_size: KeySize,
    /// Operation mode (encrypt/decrypt)
    pub operation: Operation,
    /// Cipher mode
    pub mode: Mode,
    /// Data type
    pub data_type: DataType,
}

impl Default for Config {
    fn default() -> (r: Self)
        ensures
            r == (Config { key_size: KeySize::Bits128, operation: Operation::Encrypt, mode: Mode::Ecb, data_type: DataType::Word }),
    {
        Config { key_size: KeySize::Bits128, operation: Operation::Encrypt, mode: Mode::Ecb, data_type: DataType::Word }
    }
}

/// The little-endian 32-bit word made of bytes `b0` (lowest) to `b3`, as
/// `u32::from_le_bytes` builds it.
pub open spec fn le_word(b0: u8, b1: u8, b2: u8, b3: u8) -> u32 {
    (b0 + 256 * b1 + 65536 * b2 + 16777216 * b3) as u32
}

/// Byte `k` (0 = lowest) of `w`, as `u32::to_le_bytes` gives it.
pub open spec fn le_byte(w: u32, k: u32) -> u8 {
    ((w >> (8 * k)) & 0xffu32) as u8
}

/// Word `j` of the 16-byte block that starts at byte `base` of `s`.
pub open spec fn block_word(s: Seq<u8>, base: int, j: int) -> u32 {
    le_word(s[base + 4 * j], s[base + 4 * j + 1], s[base + 4 * j + 2], s[base + 4 * j + 3])
}

/// Byte `o` of the output stream made of the blocks `words`, each block
/// written out as four little-endian words.
pub open spec fn stream_byte(words: Seq<[u32; 4]>, o: int) -> u8 {
    le_byte(words[o / 16][(o % 16) / 4], (o % 4) as u32)
}

/// Packs four bytes into a little-endian word.
pub fn word_from_le_bytes(b0: u8, b1: u8, b2: u8, b3: u8) -> (r: u32)
    ensures
        r == le_word(b0, b1, b2, b3),
{
    let r = (b0 as u32) | ((b1 as u32) << 8u32) | ((b2 as u32) << 16u32) | ((b3 as u32) << 24u32);
    assert(r == (b0 + 256 * b1 + 65536 * b2 + 16777216 * b3) as u32) by (bit_vector)
        requires
            r == (b0 as u32) | ((b1 as u32) << 8u32) | ((b2 as u32) << 16u32) | ((b3 as u32) << 24u32),
    ;
    r
}

/// Byte `k` (0 = lowest) of `w`.
pub fn byte_of_word(w: u32, k: u32) -> (r: u8)
    requires
        k < 4,
    ensures
        r == le_byte(w, k),
{
    ((w >> (8 * k)) & 0xff) as u8
}

/// The AES key size that a key of `key_len` 32-bit words selects: four
/// words for 128 bits, six for 192 bits, anything else 256 bits.
pub open spec fn key_size_for(key_len: nat) -> KeySize {
    if key_len == 4 {
        KeySize::Bits128
    } else if key_len == 6 {
        KeySize::Bits192
    } else {
        KeySize::Bits256
    }
}

/// AES instance
pub struct Aes {
    base: usize,
}

impl Aes {
    /// Base address of this instance's register block.
    pub closed spec fn base_addr(&self) -> usize {
        self.base
    }

    /// Base address of this instance's register block.
    pub fn base(&self) -> (r: usize)
        ensures
            r == self.base_addr(),
    {
        self.base
    }

    /// Create new AES instance
    pub fn new() -> (r: Self)
        ensures
            r.base_addr() == AES_BASE,
    {
        Self { base: AES_BASE }
    }

    /// CR value written by `init`: KEYSIZE at bit 18, MODE at bit 16,
    /// the operation at bit 2 and DATATYPE at bit 19, each shifted in as-is.
    pub open spec fn cr_value(config: Config) -> u32 {
        (config.key_size.value() << 18) | (config.mode.value() << 16) | (config.operation.value()
            << 2) | (config.data_type.value() << 19)
    }

    /// CR value that `init` writes (after clearing CR) for `config`.
    /// The chaining mode is in MODE (bits 16-18: ECB 0, CBC 1, CTR 2, GCM 3,
    /// CCM 4; bit 18 is shared with KEYSIZE's low bit, so the whole field
    /// reads the mode for 128- and 256-bit keys), and the direction in bit 2
    /// (set to decrypt).
    pub fn init(&self, config: &Config) -> (r: u32)
        ensures
            r == Self::cr_value(*config),
            regs::field(r, 16, 2) == match config.mode {
                Mode::Ecb => 0u32,
                Mode::Cbc => 1u32,
                Mode::Ctr => 2u32,
                Mode::Gcm => 3u32,
                Mode::Ccm => 0u32,
            },
            regs::bit(r, 18) == (config.mode == Mode::Ccm || config.key_size == KeySize::Bits192),
            config.key_size != KeySize::Bits192 ==> regs::field(r, 16, 3) == match config.mode {
                Mode::Ecb => 0u32,
                Mode::Cbc => 1u32,
                Mode::Ctr => 2u32,
                Mode::Gcm => 3u32,
                Mode::Ccm => 4u32,
            },
            regs::bit(r, 2) == (config.operation == Operation::Decrypt),
    {
        proof {
            lemma_cr_mode_and_direction(*config);
        }
        (config.key_size.bits() << 18) | (config.mode.bits() << 16) | (config.operation.bits() << 2)
            | (config.data_type.bits() << 19)
    }

    /// CR with the peripheral enabled (EN, bit 0).
    pub fn enable(&self, cr: u32) -> (r: u32)
        ensures
            r == regs::with_bit(cr, 0, true),
    {
        set_bit(cr, 0)
    }

    /// CR with the peripheral disabled: EN (bit 0) cleared.
    pub fn disable(&self, cr: u32) -> (r: u32)
        ensures
            r == regs::with_bit(cr, 0, false),
    {
        clear_bit(cr, 0)
    }

    /// Register writes that load `key`: word `i` goes to KEYR0 + 4 * i, for
    /// the first eight words at most.
    pub fn set_key(&self, key: &[u32]) -> (r: Vec<(usize, u32)>)
        ensures
            r@.len() == if key@.len() < 8 { key@.len() } else { 8 },
            forall|i: int| #![trigger r@[i]] 0 <= i < r@.len() ==> r@[i].0 == reg::KEYR0 + 4 * i && r@[i].1 == key@[i],
    {
        let mut r: Vec<(usize, u32)> = Vec::new();
        let n: usize = if key.len() < 8 { key.len() } else { 8 };
        let mut i: usize = 0;
        while i < n
            invariant
                i <= n,
                n <= key@.len(),
                n <= 8,
                n == if key@.len() < 8 { key@.len() } else { 8 },
                r@.len() == i,
                forall|k: int| #![trigger r@[k]] 0 <= k < i ==> r@[k].0 == reg::KEYR0 + 4 * k && r@[k].1 == key@[k],
            decreases n - i,
        {
            r.push((reg::KEYR0 + i * 4, key[i]));
            i = i + 1;
        }
        r
    }

    /// Register writes that load the initialization vector: word `i` goes to
    /// IVR0 + 4 * i.
    pub fn set_iv(&self, iv: &[u32; 4]) -> (r: [(usize, u32); 4])
        ensures
            forall|i: int| 0 <= i < 4 ==> #[trigger] r[i].0 == reg::IVR0 + 4 * i && r[i].1 == iv[i],
    {
        [
            (reg::IVR0, iv[0]),
            (reg::IVR0 + 4, iv[1]),
            (reg::IVR0 + 8, iv[2]),
            (reg::IVR0 + 12, iv[3]),
        ]
    }

    /// The status that SR reports: BUSY (bit 0) with bit 2 set is the
    /// authentication phase, BUSY alone is busy; otherwise any of bits 1-3
    /// is an error, and none is ready.
    pub fn get_status(&self, sr: u32) -> (r: AesStatus)
        ensures
            r == (if regs::bit(sr, 0) {
                if regs::bit(sr, 2) {
                    AesStatus::AuthPhase
                } else {
                    AesStatus::Busy
                }
            } else if sr & 0xe != 0 {
                AesStatus::Error
            } else {
                AesStatus::Ready
            }),
    {
        if test_bit(sr, 0) {
            if test_bit(sr, 2) {
                AesStatus::AuthPhase
            } else {
                AesStatus::Busy
            }
        } else if sr & 0xe != 0 {
            AesStatus::Error
        } else {
            AesStatus::Ready
        }
    }

    /// Whether SR reports a computation in progress (BUSY, bit 0); `wait_ready`
    /// waits until this is false.
    pub fn is_busy(&self, sr: u32) -> (r: bool)
        ensures
            r == regs::bit(sr, 0),
    {
        test_bit(sr, 0)
    }

    /// Configuration used by `encrypt_cbc` and `encrypt_ctr`: the key size
    /// that the key length selects, encryption, the given chaining mode and
    /// byte data.
    pub fn key_config(key: &[u32], mode: Mode) -> (r: Config)
        ensures
            r == (Config {
                key_size: key_size_for(key@.len()),
                operation: Operation::Encrypt,
                mode,
                data_type: DataType::Byte,
            }),
    {
        let key_size = if key.len() == 4 {
            KeySize::Bits128
        } else if key.len() == 6 {
            KeySize::Bits192
        } else {
            KeySize::Bits256
        };
        Config { key_size, operation: Operation::Encrypt, mode, data_type: DataType::Byte }
    }

    /// The input blocks that `encrypt_cbc` feeds to the peripheral: each full
    /// 16-byte block of `input` as four little-endian words; a trailing
    /// partial block is not encrypted.
    pub fn input_blocks(input: &[u8]) -> (r: Vec<[u32; 4]>)
        ensures
            r@.len() == input@.len() / 16,
            forall|i: int, j: int|
                0 <= i < r@.len() && 0 <= j < 4 ==> #[trigger] r@[i][j] == block_word(
                    input@,
                    16 * i,
                    j,
                ),
    {
        let nb = input.len() / 16;
        let mut r: Vec<[u32; 4]> = Vec::new();
        let mut i: usize = 0;
        while i < nb
            invariant
                nb == input@.len() / 16,
                input@.len() <= usize::MAX,
                i <= nb,
                r@.len() == i,
                forall|k: int, j: int|
                    0 <= k < i && 0 <= j < 4 ==> #[trigger] r@[k][j] == block_word(
                        input@,
                        16 * k,
                        j,
                    ),
            decreases nb - i,
        {
            assert(16 * i + 16 <= input@.len()) by (nonlinear_arith)
                requires
                    i < nb,
                    nb == input@.len() / 16,
            ;
            let base = 16 * i;
            let mut block = [0u32; 4];
            let mut j: usize = 0;
            while j < 4
                invariant
                    j <= 4,
                    base == 16 * i,
                    base + 16 <= input@.len(),
                    forall|t: int| 0 <= t < j ==> #[trigger] block[t] == block_word(input@, base as int, t),
                decreases 4 - j,
            {
                let o = base + 4 * j;
                block[j] = word_from_le_bytes(input[o], input[o + 1], input[o + 2], input[o + 3]);
                j = j + 1;
            }
            r.push(block);
            i = i + 1;
        }
        r
    }

    /// CBC encryption of the full 16-byte blocks of `input`, given the
    /// peripheral's output `encrypted[i]` for each input block `i` (see
    /// `input_blocks`): the output words are written little-endian to the same
    /// positions of `output`; the bytes after the last full block are left
    /// unchanged.
    pub fn encrypt_cbc(&self, input: &[u8], output: &mut [u8], encrypted: &[[u32; 4]])
        requires
            encrypted@.len() == input@.len() / 16,
            old(output)@.len() >= (input@.len() / 16) * 16,
        ensures
            final(output)@.len() == old(output)@.len(),
            forall|o: int|
                0 <= o < (input@.len() / 16) * 16 ==> #[trigger] final(output)@[o] == stream_byte(
                    encrypted@,
                    o,
                ),
            forall|o: int|
                (input@.len() / 16) * 16 <= o < old(output)@.len() ==> #[trigger] final(output)@[o]
                    == old(output)@[o],
    {
        let nb = input.len() / 16;
        let total = nb * 16;
        let mut o: usize = 0;
        while o < total
            invariant
                total == (input@.len() / 16) * 16,
                encrypted@.len() == input@.len() / 16,
                o <= total,
                output@.len() == old(output)@.len(),
                total <= output@.len(),
                forall|t: int| 0 <= t < o ==> #[trigger] output@[t] == stream_byte(encrypted@, t),
                forall|t: int| o <= t < output@.len() ==> #[trigger] output@[t] == old(output)@[t],
            decreases total - o,
        {
            assert(o / 16 < encrypted@.len()) by (nonlinear_arith)
                requires
                    o < total,
                    total == (input@.len() / 16) * 16,
                    encrypted@.len() == input@.len() / 16,
            ;
            let w = encrypted[o / 16][(o % 16) / 4];
            output[o] = byte_of_word(w, (o % 4) as u32);
            o = o + 1;
        }
    }

    /// CTR encryption of `input` with the keystream blocks `keystream`
    /// produced by the peripheral, one per started 16-byte block: output byte
    /// `o` is input byte `o` XOR byte `o` of the keystream; output bytes past
    /// the input are left unchanged.
    pub fn encrypt_ctr(&self, input: &[u8], output: &mut [u8], keystream: &[[u32; 4]])
        requires
            input@.len() + 15 <= usize::MAX,
            keystream@.len() == (input@.len() + 15) / 16,
            old(output)@.len() >= input@.len(),
        ensures
            final(output)@.len() == old(output)@.len(),
            forall|o: int|
                0 <= o < input@.len() ==> #[trigger] final(output)@[o] == input@[o] ^ stream_byte(
                    keystream@,
                    o,
                ),
            forall|o: int|
                input@.len() <= o < old(output)@.len() ==> #[trigger] final(output)@[o] == old(
                    output,
                )@[o],
    {
        let n = input.len();
        let mut o: usize = 0;
        while o < n
            invariant
                n == input@.len(),
                keystream@.len() == (input@.len() + 15) / 16,
                o <= n,
                output@.len() == old(output)@.len(),
                n <= output@.len(),
                forall|t: int| 0 <= t < o ==> #[trigger] output@[t] == input@[t] ^ stream_byte(keystream@, t),
                forall|t: int| o <= t < output@.len() ==> #[trigger] output@[t] == old(output)@[t],
            decreases n - o,
        {
            assert(o / 16 < keystream@.len()) by (nonlinear_arith)
                requires
                    o < n,
                    keystream@.len() == (n + 15) / 16,
            ;
            let w = keystream[o / 16][(o % 16) / 4];
            output[o] = input[o] ^ byte_of_word(w, (o % 4) as u32);
            o = o + 1;
        }
    }

}

/// The plaintext block of `aes128_ecb_encrypt` as the four little-endian
/// words fed to the peripheral.
pub fn pack_block(plaintext: &[u8; 16]) -> (r: [u32; 4])
    ensures
        forall|j: int| 0 <= j < 4 ==> #[trigger] r[j] == block_word(plaintext@, 0, j),
{
    [
        word_from_le_bytes(plaintext[0], plaintext[1], plaintext[2], plaintext[3]),
        word_from_le_bytes(plaintext[4], plaintext[5], plaintext[6], plaintext[7]),
        word_from_le_bytes(plaintext[8], plaintext[9], plaintext[10], plaintext[11]),
        word_from_le_bytes(plaintext[12], plaintext[13], plaintext[14], plaintext[15]),
    ]
}

/// Configuration of `aes128_ecb_encrypt`: 128-bit key, encryption, ECB,
/// byte data.
pub fn ecb_config() -> (r: Config)
    ensures
        r == (Config {
            key_size: KeySize::Bits128,
            operation: Operation::Encrypt,
            mode: Mode::Ecb,
            data_type: DataType::Byte,
        }),
{
    Config {
        key_size: KeySize::Bits128,
        operation: Operation::Encrypt,
        mode: Mode::Ecb,
        data_type: DataType::Byte,
    }
}

/// AES-128 ECB encryption of one block: `encrypted` is the peripheral's
/// output for the words `pack_block` made of the plaintext; the ciphertext
/// is those words written out little-endian.
pub fn aes128_ecb_encrypt(encrypted: &[u32; 4], ciphertext: &mut [u8; 16])
    ensures
        forall|o: int| 0 <= o < 16 ==> #[trigger] final(ciphertext)@[o] == le_byte(encrypted[o / 4], (o % 4) as u32),
{
    let mut o: usize = 0;
    while o < 16
        invariant
            o <= 16,
            forall|t: int| 0 <= t < o ==> #[trigger] ciphertext@[t] == le_byte(encrypted[t / 4], (t % 4) as u32),
        decreases 16 - o,
    {
        ciphertext[o] = byte_of_word(encrypted[o / 4], (o % 4) as u32);
        o = o + 1;
    }
}

/// What the CR word of `init` selects, for every configuration: MODE's
/// low two bits hold the chaining mode's code (ECB 0, CBC 1, CTR 2, GCM 3,
/// CCM 4), bit 18 is set exactly for CCM or a 192-bit key, so that for 128-
/// and 256-bit keys MODE (bits 16-18) reads the mode's code; and bit 2 is
/// set exactly to decrypt. So no two chaining modes give the same MODE field.
pub proof fn lemma_cr_mode_and_direction(config: Config)
    ensures
        regs::field(Aes::cr_value(config), 16, 2) == match config.mode {
            Mode::Ecb => 0u32,
            Mode::Cbc => 1u32,
            Mode::Ctr => 2u32,
            Mode::Gcm => 3u32,
            Mode::Ccm => 0u32,
        },
        regs::bit(Aes::cr_value(config), 18) == (config.mode == Mode::Ccm || config.key_size == KeySize::Bits192),
        config.key_size != KeySize::Bits192 ==> regs::field(Aes::cr_value(config), 16, 3) == match config.mode {
            Mode::Ecb => 0u32,
            Mode::Cbc => 1u32,
            Mode::Ctr => 2u32,
            Mode::Gcm => 3u32,
            Mode::Ccm => 4u32,
        },
        regs::bit(Aes::cr_value(config), 2) == (config.operation == Operation::Decrypt),
{
    let k = config.key_size.value();
    let m = config.mode.value();
    let o = config.operation.value();
    let d = config.data_type.value();
    let x = Aes::cr_value(config);
    assert(k <= 2 && m <= 4 && o <= 1 && d <= 3);
    assert({
        &&& (m < 4u32 ==> (x >> 16u32) & 3u32 == m)
        &&& (m == 4u32 ==> (x >> 16u32) & 3u32 == 0u32)
        &&& (((x >> 18u32) & 1u32) == 1u32) == (m == 4u32 || k == 1u32)
        &&& (k != 1u32 ==> (x >> 16u32) & 7u32 == m)
        &&& (((x >> 2u32) & 1u32) == 1u32) == (o == 1u32)
    }) by (bit_vector)
        requires
            k <= 2,
            m <= 4,
            o <= 1,
            d <= 3,
            x == (k << 18u32) | (m << 16u32) | (o << 2u32) | (d << 19u32),
    ;
}

/// Writing out a word packed from four bytes gives back those bytes.
pub proof fn lemma_le_word_bytes(b0: u8, b1: u8, b2: u8, b3: u8)
    ensures
        le_byte(le_word(b0, b1, b2, b3), 0) == b0,
        le_byte(le_word(b0, b1, b2, b3), 1) == b1,
        le_byte(le_word(b0, b1, b2, b3), 2) == b2,
        le_byte(le_word(b0, b1, b2, b3), 3) == b3,
{
    let w = le_word(b0, b1, b2, b3);
    assert({
        &&& ((w >> 0u32) & 0xffu32) as u8 == b0
        &&& ((w >> 8u32) & 0xffu32) as u8 == b1
        &&& ((w >> 16u32) & 0xffu32) as u8 == b2
        &&& ((w >> 24u32) & 0xffu32) as u8 == b3
    }) by (bit_vector)
        requires
            w == (b0 + 256 * b1 + 65536 * b2 + 16777216 * b3) as u32,
    ;
}

/// CTR mode is its own inverse: running `encrypt_ctr` again on its output
/// with the same keystream gives back the input.
pub proof fn lemma_ctr_involution(
    input: Seq<u8>,
    once: Seq<u8>,
    twice: Seq<u8>,
    keystream: Seq<[u32; 4]>,
)
    requires
        once.len() >= input.len(),
        twice.len() >= input.len(),
        forall|o: int| 0 <= o < input.len() ==> #[trigger] once[o] == input[o] ^ stream_byte(keystream, o),
        forall|o: int| 0 <= o < input.len() ==> #[trigger] twice[o] == once[o] ^ stream_byte(keystream, o),
    ensures
        forall|o: int| 0 <= o < input.len() ==> #[trigger] twice[o] == input[o],
{
    assert forall|o: int| 0 <= o < input.len() implies #[trigger] twice[o] == input[o] by {
        let a = input[o];
        let k = stream_byte(keystream, o);
        assert((a ^ k) ^ k == a) by (bit_vector);
        assert(once[o] == a ^ k);
    }
}

/// CR value of `init_aes_default`: `Aes::init` with the default
/// configuration, AES-128 ECB encryption of 32-bit words.
pub fn init_aes_default() -> (r: u32)
    ensures
        r == Aes::cr_value(Config { key_size: KeySize::Bits128, operation: Operation::Encrypt, mode: Mode::Ecb, data_type: DataType::Word }),
{
    let aes = Aes::new();
    let config = Config::default();
    aes.init(&config)
}

} // verus!
