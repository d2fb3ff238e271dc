//! I2C - Inter-Integrated Circuit
//!
//! The STM32U5 I2C supports standard mode (100 kHz), fast mode (400 kHz)
//! and fast mode plus (1 MHz).
use vstd::prelude::*;
use crate::gpio::{AlternateFunction, Mode, OutputType, Pin, Port, PortConfig, Pull, Speed};
use crate::regs::{self, RegisterWrite, set_bit, test_bit};
pub mod reg;

verus! {

broadcast use regs::lemma_low_mask_value;

/// I2C1 base address
pub const I2C1_BASE: usize = 0x4000_5400;
/// I2C2 base address
pub const I2C2_BASE: usize = 0x4000_5800;
/// I2C3 base address
pub const I2C3_BASE: usize = 0x4000_5C00;
/// I2C4 base address
pub const I2C4_BASE: usize = 0x4000_8400;

/// I2C speed modes
#[derive(Clone, Copy, Debug, PartialEq, Eq, Structural)]
pub enum I2cSpeed {
    /// Standard mode (100 kHz)
    Standard,
    /// Fast mode (400 kHz)
    Fast,
    /// Fast mode plus (1 MHz)
    FastPlus,
}

impl I2cSpeed {
    /// The register encoding of this value.
    pub open spec fn value(self) -> u32 {
        match self {
            I2cSpeed::Standard => 100_000u32,
            I2cSpeed::Fast => 400_000u32,
            I2cSpeed::FastPlus => 1_000_000u32,
        }
    }

    /// The register encoding of this value.
    pub fn bits(self) -> (r: u32)
        ensures
            r == self.value(),
    {
        match self {
            I2cSpeed::Standard => 100_000,
            I2cSpeed::Fast => 400_000,
            I2cSpeed::FastPlus => 1_000_000,
        }
    }
}

/// I2C configuration
#[derive(Clone, Copy, Debug)]
pub struct Config {
    pub speed: I2cSpeed,
    pub own_address: u16,
    pub address_10bit: bool,
}

impl Default for Config {
    fn default() -> (r: Self)
        ensures
            r == (Config { speed: I2cSpeed::Standard, own_address: 0, address_10bit: false }),
    {
        Config { speed: I2cSpeed::Standard, own_address: 0, address_10bit: false }
    }
}

/// I2C instance
pub struct I2c {
    base: usize,
}

impl I2c {
    /// Base address of this instance's register block.
    pub closed spec fn base_addr(&self) -> usize {
        self.base
    }

    /// Base address of this instance's register block.
    pub fn base(&self) -> (r: usize)
        ensures
            r == self.base_addr(),
    {
        self.base
    }

    /// Create I2C1 instance
    pub fn i2c1() -> (r: Self)
        ensures
            r.base_addr() == I2C1_BASE,
    {
        Self { base: I2C1_BASE }
    }

    /// Create I2C2 instance
    pub fn i2c2() -> (r: Self)
        ensures
            r.base_addr() == I2C2_BASE,
    {
        Self { base: I2C2_BASE }
    }

    /// Create I2C3 instance
    pub fn i2c3() -> (r: Self)
        ensures
            r.base_addr() == I2C3_BASE,
    {
        Self { base: I2C3_BASE }
    }

    /// OAR1 value for a non-zero own address: OA1EN (bit 15) with the 10-bit
    /// mode flag (bit 10) and the address as given, or the 7-bit address
    /// shifted to bit 1.
    pub open spec fn oar1_value(config: Config) -> u32 {
        if config.address_10bit {
            (1u32 << 15) | (1u32 << 10) | (config.own_address as u32)
        } else {
            (1u32 << 15) | ((config.own_address as u32) << 1)
        }
    }

    /// The writes of `init`, as a sequence.
    pub open spec fn init_writes(config: Config) -> Seq<RegisterWrite> {
        if config.own_address != 0 {
            seq![
                RegisterWrite { offset: reg::CR1, value: 0 },
                RegisterWrite { offset: reg::TIMINGR, value: timing_value(config.speed) },
                RegisterWrite { offset: reg::OAR1, value: Self::oar1_value(config) },
                RegisterWrite { offset: reg::CR1, value: 1 },
            ]
        } else {
            seq![
                RegisterWrite { offset: reg::CR1, value: 0 },
                RegisterWrite { offset: reg::TIMINGR, value: timing_value(config.speed) },
                RegisterWrite { offset: reg::CR1, value: 1 },
            ]
        }
    }

    /// The writes of `init`: CR1 cleared, TIMINGR for the speed, OAR1 when an
    /// own address is set, then CR1 with the peripheral enabled (PE).
    pub fn init(&self, config: &Config, pclk_freq: u32) -> (r: Vec<RegisterWrite>)
        ensures
            r@.len() == if config.own_address != 0 { 4int } else { 3int },
            r@[0] == (RegisterWrite { offset: reg::CR1, value: 0 }),
            r@[1] == (RegisterWrite { offset: reg::TIMINGR, value: timing_value(config.speed) }),
            config.own_address != 0 ==> r@[2] == (RegisterWrite { offset: reg::OAR1, value: Self::oar1_value(*config) }),
            r@[r@.len() - 1] == (RegisterWrite { offset: reg::CR1, value: 1 }),
            r@ == Self::init_writes(*config),
    {
        let mut r: Vec<RegisterWrite> = Vec::new();
        r.push(RegisterWrite { offset: reg::CR1, value: 0 });
        r.push(RegisterWrite { offset: reg::TIMINGR, value: calculate_timing(pclk_freq, config.speed) });
        if config.own_address != 0 {
            let oar1 = if config.address_10bit {
                (1u32 << 15) | (1u32 << 10) | (config.own_address as u32)
            } else {
                (1u32 << 15) | ((config.own_address as u32) << 1)
            };
            r.push(RegisterWrite { offset: reg::OAR1, value: oar1 });
        }
        r.push(RegisterWrite { offset: reg::CR1, value: 1 });
        r
    }

    /// CR2 word of `start`: the 7-bit address at bit 1, RD_WRN (bit 10) for a
    /// read, START (bit 13) and AUTOEND (bit 25).
    pub open spec fn start_word(address: u8, read: bool) -> u32 {
        ((address as u32) << 1) | (if read { 1u32 << 10 } else { 0 }) | (1u32 << 13) | (1u32 << 25)
    }

    /// CR2 word of `start`.
    pub fn start(&self, address: u8, read: bool) -> (r: u32)
        ensures
            r == Self::start_word(address, read),
    {
        let rd: u32 = if read { 1u32 << 10 } else { 0 };
        ((address as u32) << 1) | rd | (1u32 << 13) | (1u32 << 25)
    }

    /// CR2 with a STOP condition requested (bit 14).
    pub fn stop(&self, cr2: u32) -> (r: u32)
        ensures
            r == regs::with_bit(cr2, 14, true),
    {
        set_bit(cr2, 14)
    }

    /// Whether ISR reports the transmit register empty (TXIS, bit 1);
    /// `write_byte` waits for it.
    pub fn tx_empty(&self, isr: u32) -> (r: bool)
        ensures
            r == regs::bit(isr, 1),
    {
        test_bit(isr, 1)
    }

    /// Whether ISR reports a received byte (RXNE, bit 2); `read_byte` waits
    /// for it.
    pub fn rx_not_empty(&self, isr: u32) -> (r: bool)
        ensures
            r == regs::bit(isr, 2),
    {
        test_bit(isr, 2)
    }

    /// TXDR word of `write_byte`.
    pub fn write_byte(&self, byte: u8) -> (r: u32)
        ensures
            r == byte as u32,
    {
        byte as u32
    }

    /// The byte received in RXDR.
    pub fn read_byte(&self, rxdr: u32) -> (r: u8)
        ensures
            r == rxdr as u8,
    {
        rxdr as u8
    }

    /// Whether ISR reports the transfer complete (TC, bit 6).
    pub fn is_complete(&self, isr: u32) -> (r: bool)
        ensures
            r == regs::bit(isr, 6),
    {
        test_bit(isr, 6)
    }

    /// CR2 word that starts a transfer of `len` bytes: the `start` word with
    /// the byte count in NBYTES (bits 16-23, or-ed in as `len << 16`).
    pub open spec fn transfer_word(address: u8, read: bool, len: usize) -> u32 {
        Self::start_word(address, read) | ((len as u32) << 16u32)
    }

    /// The CR2 word that starts a transfer of `len` bytes.
    fn transfer(&self, address: u8, read: bool, len: usize) -> (r: u32)
        ensures
            r == Self::transfer_word(address, read, len),
            len <= 255 ==> regs::field(r, 16, 8) == len,
            regs::bit(r, 13),
            regs::bit(r, 10) == read,
    {
        let r = self.start(address, read) | ((len as u32) << 16);
        proof {
            lemma_transfer_fields(address, read, len as u32);
        }
        r
    }

    /// The words of `write`: the CR2 word that starts a write of
    /// `data.len()` bytes to `address` (the byte count in NBYTES), then each
    /// byte of `data` for TXDR, in order (each once TXDR is empty); the
    /// transfer ends when `is_complete` holds.
    pub fn write(&self, address: u8, data: &[u8]) -> (r: (u32, Vec<u32>))
        ensures
            r.0 == Self::transfer_word(address, false, data@.len() as usize),
            data@.len() <= 255 ==> regs::field(r.0, 16, 8) == data@.len(),
            r.1@.len() == data@.len(),
            forall|i: int| 0 <= i < data@.len() ==> #[trigger] r.1@[i] == data@[i] as u32,
    {
        let mut tx: Vec<u32> = Vec::new();
        let mut i: usize = 0;
        while i < data.len()
            invariant
                i <= data@.len(),
                tx@.len() == i,
                forall|k: int| 0 <= k < i ==> #[trigger] tx@[k] == data@[k] as u32,
            decreases data@.len() - i,
        {
            tx.push(self.write_byte(data[i]));
            i = i + 1;
        }
        (self.transfer(address, false, data.len()), tx)
    }

    /// The CR2 words of `read` for a buffer of `len` bytes: first the byte
    /// count (NBYTES, bits 16-23, cleared and then `len << 16` or-ed in),
    /// then the word that starts the read, which carries the same byte
    /// count; the bytes are then read one by one, each once RXNE is set.
    pub fn read(&self, address: u8, len: usize, cr2: u32) -> (r: (u32, u32))
        ensures
            r.0 == (cr2 & !(0xFFu32 << 16)) | ((len as u32) << 16),
            r.1 == Self::transfer_word(address, true, len),
            len <= 255 ==> regs::field(r.1, 16, 8) == len,
            regs::bit(r.1, 13),
            regs::bit(r.1, 10),
    {
        ((cr2 & !(0xFFu32 << 16)) | ((len as u32) << 16), self.transfer(address, true, len))
    }

    /// The words of `write_read`: those of `write` for `write_data`, then those
    /// of `read` for `read_len` bytes.
    pub fn write_read(&self, address: u8, write_data: &[u8], read_len: usize, cr2: u32) -> (r: ((u32, Vec<u32>), (u32, u32)))
        ensures
            r.0.0 == Self::transfer_word(address, false, write_data@.len() as usize),
            r.0.1@.len() == write_data@.len(),
            forall|i: int| 0 <= i < write_data@.len() ==> #[trigger] r.0.1@[i] == write_data@[i] as u32,
            r.1.0 == (cr2 & !(0xFFu32 << 16)) | ((read_len as u32) << 16),
            r.1.1 == Self::transfer_word(address, true, read_len),
            read_len <= 255 ==> regs::field(r.1.1, 16, 8) == read_len,
    {
        (self.write(address, write_data), self.read(address, read_len, cr2))
    }

}

/// The byte count of a transfer word sits in NBYTES, clear of the address,
/// direction, START and AUTOEND bits.
proof fn lemma_transfer_fields(address: u8, read: bool, len: u32)
    ensures
        len <= 255 ==> regs::field(I2c::start_word(address, read) | (len << 16u32), 16, 8) == len,
        regs::bit(I2c::start_word(address, read) | (len << 16u32), 13),
        regs::bit(I2c::start_word(address, read) | (len << 16u32), 10) == read,
{
    let a = address as u32;
    let rd: u32 = if read { 1u32 << 10 } else { 0 };
    let w = ((a << 1) | rd | (1u32 << 13) | (1u32 << 25)) | (len << 16u32);
    assert(w == I2c::start_word(address, read) | (len << 16u32));
    assert((1u32 << 10u32) != 0u32) by (bit_vector);
    assert({
        &&& (len <= 255 ==> (w >> 16u32) & 0xffu32 == len)
        &&& ((w >> 13u32) & 1u32) == 1u32
        &&& (((w >> 10u32) & 1u32) == 1u32) == (rd != 0u32)
    }) by (bit_vector)
        requires
            a < 256,
            rd == 0 || rd == (1u32 << 10),
            w == ((a << 1) | rd | (1u32 << 13) | (1u32 << 25)) | (len << 16u32),
    ;
}

/// TIMINGR value for a bus speed (for a 16 MHz kernel clock): prescaler at
/// bit 28, data setup at bit 20, data hold at bit 16, SCL high at bit 8 and
/// SCL low at bit 0.
pub open spec fn timing_value(speed: I2cSpeed) -> u32 {
    match speed {
        I2cSpeed::Standard => (15u32 << 28) | (4u32 << 20) | (2u32 << 16) | (39u32 << 8) | 49u32,
        I2cSpeed::Fast => (7u32 << 28) | (3u32 << 20) | (0u32 << 16) | (12u32 << 8) | 39u32,
        I2cSpeed::FastPlus => (3u32 << 28) | (2u32 << 20) | (0u32 << 16) | (7u32 << 8) | 38u32,
    }
}

/// TIMINGR value for `speed`; the peripheral clock frequency does not enter.
pub fn calculate_timing(pclk_freq: u32, speed: I2cSpeed) -> (r: u32)
    ensures
        r == timing_value(speed),
{
    match speed {
        I2cSpeed::Standard => (15u32 << 28) | (4u32 << 20) | (2u32 << 16) | (39u32 << 8) | 49u32,
        I2cSpeed::Fast => (7u32 << 28) | (3u32 << 20) | (0u32 << 16) | (12u32 << 8) | 39u32,
        I2cSpeed::FastPlus => (3u32 << 28) | (2u32 << 20) | (0u32 << 16) | (7u32 << 8) | 38u32,
    }
}

/// `init_i2c1_default`: PB8 (SCL) and PB9 (SDA) put in alternate function 4,
/// open-drain, high speed, pull-up, in the port B configuration `portb`; the
/// returned writes initialize I2C1 with the default configuration (after its
/// clock is enabled).
pub fn init_i2c1_default(pclk_freq: u32, portb: &mut PortConfig) -> (r: Vec<RegisterWrite>)
    ensures
        r@ == I2c::init_writes(Config { speed: I2cSpeed::Standard, own_address: 0, address_10bit: false }),
        final(portb).afrh == regs::with_field(regs::with_field(old(portb).afrh, 0, 4, AlternateFunction::AF4.value()), 4, 4, AlternateFunction::AF4.value()),
        final(portb).moder == regs::with_field(regs::with_field(old(portb).moder, 16, 2, Mode::Alternate.value()), 18, 2, Mode::Alternate.value()),
        final(portb).otyper == regs::with_bit(regs::with_bit(old(portb).otyper, 8, true), 9, true),
        final(portb).ospeedr == regs::with_field(regs::with_field(old(portb).ospeedr, 16, 2, Speed::High.value()), 18, 2, Speed::High.value()),
        final(portb).pupdr == regs::with_field(regs::with_field(old(portb).pupdr, 16, 2, Pull::Up.value()), 18, 2, Pull::Up.value()),
        final(portb).afrl == old(portb).afrl,
{
    let pb8 = Pin::new(Port::B, 8);
    let pb9 = Pin::new(Port::B, 9);
    pb8.init_alternate(portb, AlternateFunction::AF4, OutputType::OpenDrain, Speed::High, Pull::Up);
    pb9.init_alternate(portb, AlternateFunction::AF4, OutputType::OpenDrain, Speed::High, Pull::Up);
    let i2c = I2c::i2c1();
    let config = Config::default();
    i2c.init(&config, pclk_freq)
}

} // verus!
