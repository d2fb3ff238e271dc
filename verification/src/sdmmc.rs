//! SDMMC - Secure Digital MultiMedia Card
//!
//! ## Features
//! Supported Cards:
//! - SD cards
//! - SDIO cards
//! - eMMC (embedded MMC)
//!
//! Standards Support:
//! - SD Memory Card Standard 4.2
//! - SDIO Card Standard 2.0
//! - eMMC Standard 4.51
//!
//! Other features:
//! - 8-bit data bus
//! - DMA transfers
//! - High speed mode
//! - SDR (Single Data Rate)
//!
//! ## Reference
//! - RM0456 Reference Manual, Chapter 58: Secure digital input/output interface (SDMMC)
use vstd::prelude::*;
use crate::aes::{byte_of_word, le_byte, le_word, word_from_le_bytes};
use crate::regs::{self, RegisterWrite, set_bit, test_bit};
pub mod reg;

verus! {

broadcast use regs::lemma_low_mask_value;

/// SDMMC1 base address
pub const SDMMC1_BASE: usize = 0x420C_8000;
/// SDMMC2 base address
pub const SDMMC2_BASE: usize = 0x420C_8C00;

/// SDMMC command
#[derive(Clone, Copy, Debug, PartialEq, Eq, Structural)]
pub enum Command {
    GoIdleState,
    SendCid,
    SendRelativeAddr,
    SelectCard,
    /// SEND_IF_COND (CMD8): the interface condition check.
    SendIfCond,
    SendCsd,
    StopTransmission,
    SendStatus,
    SetBlocklen,
    ReadSingleBlock,
    ReadMultipleBlock,
    WriteSingleBlock,
    WriteMultipleBlock,
    AppCmd,
    SdSendOpCond,
}

impl Command {
    /// The register encoding of this value.
    pub open spec fn value(self) -> u32 {
        match self {
            Command::GoIdleState => 0u32,
            Command::SendCid => 2u32,
            Command::SendRelativeAddr => 3u32,
            Command::SelectCard => 7u32,
            Command::SendIfCond => 8u32,
            Command::SendCsd => 9u32,
            Command::StopTransmission => 12u32,
            Command::SendStatus => 13u32,
            Command::SetBlocklen => 16u32,
            Command::ReadSingleBlock => 17u32,
            Command::ReadMultipleBlock => 18u32,
            Command::WriteSingleBlock => 24u32,
            Command::WriteMultipleBlock => 25u32,
            Command::AppCmd => 55u32,
            Command::SdSendOpCond => 41u32,
        }
    }

    /// The register encoding of this value.
    pub fn bits(self) -> (r: u32)
        ensures
            r == self.value(),
    {
        match self {
            Command::GoIdleState => 0,
            Command::SendCid => 2,
            Command::SendRelativeAddr => 3,
            Command::SelectCard => 7,
            Command::SendIfCond => 8,
            Command::SendCsd => 9,
            Command::StopTransmission => 12,
            Command::SendStatus => 13,
            Command::SetBlocklen => 16,
            Command::ReadSingleBlock => 17,
            Command::ReadMultipleBlock => 18,
            Command::WriteSingleBlock => 24,
            Command::WriteMultipleBlock => 25,
            Command::AppCmd => 55,
            Command::SdSendOpCond => 41,
        }
    }
}

/// SDMMC response type
#[derive(Clone, Copy, Debug, PartialEq, Eq, Structural)]
pub enum ResponseType {
    NoResponse,
    Short,
    Long,
}

impl ResponseType {
    /// The register encoding of this value.
    pub open spec fn value(self) -> u32 {
        match self {
            ResponseType::NoResponse => 0u32,
            ResponseType::Short => 1u32,
            ResponseType::Long => 3u32,
        }
    }

    /// The register encoding of this value.
    pub fn bits(self) -> (r: u32)
        ensures
            r == self.value(),
    {
        match self {
            ResponseType::NoResponse => 0,
            ResponseType::Short => 1,
            ResponseType::Long => 3,
        }
    }
}

/// SDMMC data direction
#[derive(Clone, Copy, Debug, PartialEq, Eq, Structural)]
pub enum DataDirection {
    Read,
    Write,
}

impl DataDirection {
    /// The register encoding of this value.
    pub open spec fn value(self) -> u32 {
        match self {
            DataDirection::Read => 0u32,
            DataDirection::Write => 1u32,
        }
    }

    /// The register encoding of this value.
    pub fn bits(self) -> (r: u32)
        ensures
            r == self.value(),
    {
        match self {
            DataDirection::Read => 0,
            DataDirection::Write => 1,
        }
    }
}

/// SDMMC error
#[derive(Clone, Copy, Debug, PartialEq, Eq, Structural)]
pub enum SdmmcError {
    Timeout,
    CommandError,
    DataError,
    CardError,
}

/// Number of STA reads after which `send_command` gives up.
pub const COMMAND_TIMEOUT: u32 = 1_000_000;

/// What `send_command` does after one read of STA.
#[derive(Clone, Copy, Debug)]
pub enum CommandWait {
    /// The command has ended, with this result.
    Done(Result<(), SdmmcError>),
    /// Read STA again; this many reads are left before the timeout.
    Poll(u32),
}

/// Byte `i` of `bytes`, or zero past its end.
pub open spec fn byte_or_zero(bytes: Seq<u8>, i: int) -> u8 {
    if i < bytes.len() {
        bytes[i]
    } else {
        0
    }
}

/// The FIFO words of `write_block` for `bytes`.
pub open spec fn packed_words(bytes: Seq<u8>, words: Seq<u32>) -> bool {
    &&& words.len() == (bytes.len() + 3) / 4
    &&& forall|k: int|
        0 <= k < words.len() ==> #[trigger] words[k] == le_word(
            byte_or_zero(bytes, 4 * k),
            byte_or_zero(bytes, 4 * k + 1),
            byte_or_zero(bytes, 4 * k + 2),
            byte_or_zero(bytes, 4 * k + 3),
        )
}

/// A block written with `write_block` reads back unchanged: unpacking its
/// FIFO words as `read_block` does gives every byte of the buffer again.
pub proof fn lemma_block_roundtrip(bytes: Seq<u8>, words: Seq<u32>)
    requires
        packed_words(bytes, words),
    ensures
        forall|i: int| 0 <= i < bytes.len() ==> #[trigger] le_byte(words[i / 4], (i % 4) as u32) == bytes[i],
{
    assert forall|i: int| 0 <= i < bytes.len() implies #[trigger] le_byte(words[i / 4], (i % 4) as u32) == bytes[i] by {
        let k = i / 4;
        assert(0 <= k < words.len());
        assert(words[k] == le_word(
            byte_or_zero(bytes, 4 * k),
            byte_or_zero(bytes, 4 * k + 1),
            byte_or_zero(bytes, 4 * k + 2),
            byte_or_zero(bytes, 4 * k + 3),
        ));
        crate::aes::lemma_le_word_bytes(
            byte_or_zero(bytes, 4 * k),
            byte_or_zero(bytes, 4 * k + 1),
            byte_or_zero(bytes, 4 * k + 2),
            byte_or_zero(bytes, 4 * k + 3),
        );
        assert(i == 4 * k + i % 4);
    }
}

/// SDMMC instance
pub struct Sdmmc {
    base: usize,
}

impl Sdmmc {
    /// Base address of this instance's register block.
    pub closed spec fn base_addr(&self) -> usize {
        self.base
    }

    /// Base address of this instance's register block.
    pub fn base(&self) -> (r: usize)
        ensures
            r == self.base_addr(),
    {
        self.base
    }

    pub fn sdmmc1() -> (r: Self)
        ensures
            r.base_addr() == SDMMC1_BASE,
    {
        Self { base: SDMMC1_BASE }
    }

    pub fn sdmmc2() -> (r: Self)
        ensures
            r.base_addr() == SDMMC2_BASE,
    {
        Self { base: SDMMC2_BASE }
    }

    /// The writes of `init` (after the SDMMC1 clock is enabled): POWER on
    /// (0b11); then, after the power-up delay, CLKCR with the clock enabled
    /// (CLKEN, bit 17) and a divider of 118 (400 kHz), then CLKEN set again.
    pub fn init(&self) -> (r: [RegisterWrite; 3])
        ensures
            r[0] == (RegisterWrite { offset: reg::POWER, value: 0b11 }),
            r[1] == (RegisterWrite { offset: reg::CLKCR, value: (1u32 << 17u32) | 118u32 }),
            r[2] == (RegisterWrite { offset: reg::CLKCR, value: regs::with_bit((1u32 << 17u32) | 118u32, 17, true) }),
    {
        let clkcr: u32 = (1u32 << 17u32) | 118u32;
        [
            RegisterWrite { offset: reg::POWER, value: 0b11 },
            RegisterWrite { offset: reg::CLKCR, value: clkcr },
            RegisterWrite { offset: reg::CLKCR, value: set_bit(clkcr, 17) },
        ]
    }

    /// CMD value of a command: the index at bit 0, the response kind at bit
    /// 6, and the command path enabled (CPSMEN, bit 10).
    pub open spec fn cmd_value(cmd: Command, resp_type: ResponseType) -> u32 {
        cmd.value() | (resp_type.value() << 6u32) | (1u32 << 10u32)
    }

    /// The writes that issue a command in `send_command`: every status flag
    /// cleared in ICR, the argument in ARG, then CMD.
    pub fn send_command(&self, cmd: Command, arg: u32, resp_type: ResponseType) -> (r: [RegisterWrite; 3])
        ensures
            r[0] == (RegisterWrite { offset: reg::ICR, value: 0xFFFF_FFFF }),
            r[1] == (RegisterWrite { offset: reg::ARG, value: arg }),
            r[2] == (RegisterWrite { offset: reg::CMD, value: Self::cmd_value(cmd, resp_type) }),
    {
        [
            RegisterWrite { offset: reg::ICR, value: 0xFFFF_FFFF },
            RegisterWrite { offset: reg::ARG, value: arg },
            RegisterWrite { offset: reg::CMD, value: cmd.bits() | (resp_type.bits() << 6u32) | (1u32 << 10u32) },
        ]
    }

    /// The outcome of one read of STA while `remaining` reads are left:
    /// done once a response arrived (CMDREND, bit 6) or the command was sent
    /// without one (CMDSENT, bit 7), a timeout if the card timed out
    /// (CTIMEOUT, bit 3) or this was the last read allowed, and another read
    /// otherwise. `send_command` starts with `COMMAND_TIMEOUT` reads left.
    pub fn command_wait(&self, remaining: u32, sta: u32) -> (r: CommandWait)
        requires
            remaining > 0,
        ensures
            regs::bit(sta, 6) || regs::bit(sta, 7) ==> r matches CommandWait::Done(Ok(())),
            !regs::bit(sta, 6) && !regs::bit(sta, 7) && (regs::bit(sta, 3) || remaining == 1) ==> r matches CommandWait::Done(
                Err(SdmmcError::Timeout),
            ),
            !regs::bit(sta, 6) && !regs::bit(sta, 7) && !regs::bit(sta, 3) && remaining > 1 ==> (r matches CommandWait::Poll(
                n,
            ) && n == remaining - 1),
    {
        if test_bit(sta, 6) || test_bit(sta, 7) {
            CommandWait::Done(Ok(()))
        } else if test_bit(sta, 3) || remaining == 1 {
            CommandWait::Done(Err(SdmmcError::Timeout))
        } else {
            CommandWait::Poll(remaining - 1)
        }
    }

    /// The result of `send_command` once the command has ended: the short
    /// response RESP1 when one was expected, 0 otherwise.
    pub fn command_response(&self, resp_type: ResponseType, resp1: u32) -> (r: u32)
        ensures
            r == if resp_type == ResponseType::NoResponse { 0 } else { resp1 },
    {
        if resp_type != ResponseType::NoResponse {
            resp1
        } else {
            0
        }
    }

    /// The writes that prepare a block transfer of `len` bytes in
    /// `read_block` and `write_block`: DTIMER at its maximum, DLEN, then
    /// DCTRL with the transfer enabled (bit 0), the direction at bit 1, and
    /// 512-byte blocks (9 at bit 4).
    pub fn data_transfer_setup(&self, len: usize, direction: DataDirection) -> (r: [RegisterWrite; 3])
        ensures
            r[0] == (RegisterWrite { offset: reg::DTIMER, value: 0xFFFF_FFFF }),
            r[1] == (RegisterWrite { offset: reg::DLEN, value: len as u32 }),
            r[2] == (RegisterWrite { offset: reg::DCTRL, value: 1u32 | (direction.value() << 1u32) | (9u32 << 4u32) }),
    {
        [
            RegisterWrite { offset: reg::DTIMER, value: 0xFFFF_FFFF },
            RegisterWrite { offset: reg::DLEN, value: len as u32 },
            RegisterWrite { offset: reg::DCTRL, value: 1u32 | (direction.bits() << 1u32) | (9u32 << 4u32) },
        ]
    }

    /// `read_block` once the block has been read: fills `buffer` with the
    /// little-endian bytes of the FIFO words `words`, four bytes per word;
    /// the bytes of the last word past the end of the buffer are dropped.
    pub fn read_block(&self, buffer: &mut [u8], words: &[u32])
        requires
            words@.len() == (old(buffer)@.len() + 3) / 4,
        ensures
            final(buffer)@.len() == old(buffer)@.len(),
            forall|i: int| 0 <= i < final(buffer)@.len() ==> #[trigger] final(buffer)@[i] == le_byte(words@[i / 4], (i % 4) as u32),
    {
        let mut i: usize = 0;
        while i < buffer.len()
            invariant
                i <= buffer@.len(),
                buffer@.len() == old(buffer)@.len(),
                words@.len() == (buffer@.len() + 3) / 4,
                forall|k: int| 0 <= k < i ==> #[trigger] buffer@[k] == le_byte(words@[k / 4], (k % 4) as u32),
            decreases buffer@.len() - i,
        {
            buffer[i] = byte_of_word(words[i / 4], (i % 4) as u32);
            i = i + 1;
        }
    }

    /// The FIFO words of `write_block`: the bytes of `buffer` packed four to
    /// a word, little-endian, the last word padded with zeros.
    #[verifier::spinoff_prover]
    #[verifier::rlimit(30)]
    pub fn write_block(&self, buffer: &[u8]) -> (r: Vec<u32>)
        ensures
            packed_words(buffer@, r@),
    {
        let mut r: Vec<u32> = Vec::new();
        let n = buffer.len();
        let mut i: usize = 0;
        while i < n
            invariant
                n == buffer@.len(),
                i <= n,
                i % 4 == 0 || i == n,
                r@.len() == (i + 3) / 4,
                forall|k: int| 0 <= k < r@.len() ==> #[trigger] r@[k] == le_word(
                    byte_or_zero(buffer@, 4 * k),
                    byte_or_zero(buffer@, 4 * k + 1),
                    byte_or_zero(buffer@, 4 * k + 2),
                    byte_or_zero(buffer@, 4 * k + 3),
                ),
            decreases n - i,
        {
            let b0 = buffer[i];
            let b1 = if n - i > 1 { buffer[i + 1] } else { 0 };
            let b2 = if n - i > 2 { buffer[i + 2] } else { 0 };
            let b3 = if n - i > 3 { buffer[i + 3] } else { 0 };
            r.push(word_from_le_bytes(b0, b1, b2, b3));
            if n - i <= 4 {
                i = n;
            } else {
                i = i + 4;
            }
        }
        r
    }

    /// `set_bus_width` does nothing: the bus width is set with ACMD6, which
    /// this driver leaves to the caller.
    pub fn set_bus_width(&self, width: u8) {
    }

    /// CLKCR of `set_clock`: the low ten bits (the divider field) cleared and
    /// `sysclk / freq_hz`, cut to 16 bits, or-ed in.
    pub fn set_clock(&self, freq_hz: u32, sysclk: u32, clkcr: u32) -> (r: u32)
        requires
            freq_hz != 0,
        ensures
            r == (clkcr & !0x3FFu32) | ((sysclk / freq_hz) as u16 as u32),
    {
        let div: u16 = (sysclk / freq_hz) as u16;
        (clkcr & !0x3FFu32) | (div as u32)
    }

    /// Whether the receive FIFO is empty (RXFIFOE, bit 5 of STA); `read_block`
    /// waits while it is.
    pub fn rx_fifo_empty(&self, sta: u32) -> (r: bool)
        ensures
            r == regs::bit(sta, 5),
    {
        test_bit(sta, 5)
    }

    /// Whether the transmit FIFO is full (TXFIFOF, bit 16 of STA);
    /// `write_block` waits while it is.
    pub fn tx_fifo_full(&self, sta: u32) -> (r: bool)
        ensures
            r == regs::bit(sta, 16),
    {
        test_bit(sta, 16)
    }

}

/// The command sequence of `init_sd_card`, as (command, argument, response
/// kind): go idle (CMD0), the interface condition (CMD8, check pattern
/// 0x1AA), the application prefix,
/// the operating condition (0x4000_0000), the card identification, then the
/// relative address.
pub open spec fn card_init_commands() -> Seq<(Command, u32, ResponseType)> {
    seq![
        (Command::GoIdleState, 0u32, ResponseType::NoResponse),
        (Command::SendIfCond, 0x1AAu32, ResponseType::Short),
        (Command::AppCmd, 0u32, ResponseType::Short),
        (Command::SdSendOpCond, 0x4000_0000u32, ResponseType::Short),
        (Command::SendCid, 0u32, ResponseType::Long),
        (Command::SendRelativeAddr, 0u32, ResponseType::Short),
    ]
}

/// The commands of `init_sd_card`, in order, which it sends after
/// `Sdmmc::init` on SDMMC1 (see `card_init_step` for when it stops).
pub fn init_sd_card() -> (r: [(Command, u32, ResponseType); 6])
    ensures
        r@ == card_init_commands(),
{
    let r = [
        (Command::GoIdleState, 0u32, ResponseType::NoResponse),
        (Command::SendIfCond, 0x1AAu32, ResponseType::Short),
        (Command::AppCmd, 0u32, ResponseType::Short),
        (Command::SdSendOpCond, 0x4000_0000u32, ResponseType::Short),
        (Command::SendCid, 0u32, ResponseType::Long),
        (Command::SendRelativeAddr, 0u32, ResponseType::Short),
    ];
    assert(r@ =~= card_init_commands());
    r
}

/// What `init_sd_card` does next.
#[derive(Clone, Copy, Debug)]
pub enum CardInitStep {
    /// Send this command, with this argument and response kind.
    Send(Command, u32, ResponseType),
    /// The sequence is over, with this outcome.
    Done(Result<(), SdmmcError>),
}

/// The step of `init_sd_card` once `sent` commands of the sequence have been
/// sent and `last` is the outcome of the last one (`Ok` before the first):
/// a failed command ends the sequence with its error, so no later command
/// is sent; otherwise the next command is sent, and after the sixth the
/// card is initialized.
pub fn card_init_step(sent: usize, last: Result<(), SdmmcError>) -> (r: CardInitStep)
    requires
        sent <= 6,
    ensures
        last is Err ==> r == CardInitStep::Done(last),
        last is Ok && sent < 6 ==> r == CardInitStep::Send(card_init_commands()[sent as int].0, card_init_commands()[sent as int].1, card_init_commands()[sent as int].2),
        last is Ok && sent == 6 ==> r == CardInitStep::Done(Ok(())),
{
    match last {
        Err(e) => CardInitStep::Done(Err(e)),
        Ok(()) => {
            if sent < 6 {
                let commands = init_sd_card();
                let (cmd, arg, resp) = commands[sent];
                CardInitStep::Send(cmd, arg, resp)
            } else {
                CardInitStep::Done(Ok(()))
            }
        },
    }
}

} // verus!
