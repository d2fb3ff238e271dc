//! FLASH - Flash Memory Interface
//!
//! The STM32U5 embedded flash has:
//! - up to 4 MB of flash memory
//! - two banks, with read-while-write (RWW)
//! - ECC protection
//! - TrustZone security
use vstd::prelude::*;
use crate::regs::{self, clear_bit, set_bit, set_field, test_bit};
pub mod reg;

verus! {

broadcast use regs::lemma_low_mask_value;

/// Flash interface base address
pub const FLASH_BASE: usize = 0x4002_2000;
/// Flash keys
pub const FLASH_KEY1: u32 = 0x4567_0123;
pub const FLASH_KEY2: u32 = 0xCDEF_89AB;
pub const FLASH_OPTKEY1: u32 = 0x0819_2A3B;
pub const FLASH_OPTKEY2: u32 = 0x4C5D_6E7F;

/// Flash latency (wait states)
#[derive(Clone, Copy, Debug, PartialEq, Eq, Structural)]
pub enum Latency {
    /// 0 wait states (0 < SYSCLK <= 32 MHz)
    Ws0,
    /// 1 wait state (32 < SYSCLK <= 64 MHz)
    Ws1,
    /// 2 wait states (64 < SYSCLK <= 96 MHz)
    Ws2,
    /// 3 wait states (96 < SYSCLK <= 128 MHz)
    Ws3,
    /// 4 wait states (128 < SYSCLK <= 160 MHz)
    Ws4,
    /// 5 wait states (for higher frequencies)
    Ws5,
}

impl Latency {
    /// The register encoding of this value.
    pub open spec fn value(self) -> u32 {
        match self {
            Latency::Ws0 => 0u32,
            Latency::Ws1 => 1u32,
            Latency::Ws2 => 2u32,
            Latency::Ws3 => 3u32,
            Latency::Ws4 => 4u32,
            Latency::Ws5 => 5u32,
        }
    }

    /// The register encoding of this value.
    pub fn bits(self) -> (r: u32)
        ensures
            r == self.value(),
    {
        match self {
            Latency::Ws0 => 0,
            Latency::Ws1 => 1,
            Latency::Ws2 => 2,
            Latency::Ws3 => 3,
            Latency::Ws4 => 4,
            Latency::Ws5 => 5,
        }
    }
}

/// Flash errors
#[derive(Clone, Copy, Debug, PartialEq, Eq, Structural)]
pub enum FlashError {
    /// Unlock failed
    UnlockFailed,
    /// Alignment error
    AlignmentError,
    /// Programming error
    ProgrammingError,
    /// Erase error
    EraseError,
    /// Write protection error
    WriteProtectionError,
}

/// ACR with the wait-state count (LATENCY, bits 0-3) set to `latency`;
/// `set_latency` writes it and waits until `get_latency` reads it back.
pub fn set_latency(latency: Latency, acr: u32) -> (r: u32)
    ensures
        r == regs::with_field(acr, 0, 4, latency.value()),
        regs::field(r, 0, 4) == latency.value(),
{
    proof {
        regs::lemma_with_field(acr, 0, 4, latency.value());
    }
    set_field(acr, 0, 4, latency.bits())
}

/// The wait-state count held in ACR: bits 0-3, with every value from 5 up
/// read as five wait states.
pub open spec fn latency_of(acr: u32) -> Latency {
    let v = acr & 0xFu32;
    if v == 0 {
        Latency::Ws0
    } else if v == 1 {
        Latency::Ws1
    } else if v == 2 {
        Latency::Ws2
    } else if v == 3 {
        Latency::Ws3
    } else if v == 4 {
        Latency::Ws4
    } else {
        Latency::Ws5
    }
}

/// The wait-state count held in ACR.
pub fn get_latency(acr: u32) -> (r: Latency)
    ensures
        r == latency_of(acr),
{
    match acr & 0xF {
        0 => Latency::Ws0,
        1 => Latency::Ws1,
        2 => Latency::Ws2,
        3 => Latency::Ws3,
        4 => Latency::Ws4,
        _ => Latency::Ws5,
    }
}

/// Reading back the latency that `set_latency` wrote gives that latency.
pub proof fn lemma_latency_roundtrip(latency: Latency, acr: u32)
    ensures
        latency_of(regs::with_field(acr, 0, 4, latency.value())) == latency,
{
    regs::lemma_with_field(acr, 0, 4, latency.value());
    let v = regs::with_field(acr, 0, 4, latency.value());
    assert(regs::field(v, 0, 4) == v & 0xFu32) by {
        regs::lemma_shift_zero(v);
    }
}

/// ACR with the instruction cache enabled (ICEN, bit 9).
pub fn enable_icache(acr: u32) -> (r: u32)
    ensures
        r == regs::with_bit(acr, 9, true),
{
    set_bit(acr, 9)
}

/// ACR with the instruction cache disabled.
pub fn disable_icache(acr: u32) -> (r: u32)
    ensures
        r == regs::with_bit(acr, 9, false),
{
    clear_bit(acr, 9)
}

/// ACR with the data cache enabled (DCEN, bit 10).
pub fn enable_dcache(acr: u32) -> (r: u32)
    ensures
        r == regs::with_bit(acr, 10, true),
{
    set_bit(acr, 10)
}

/// ACR with the data cache disabled.
pub fn disable_dcache(acr: u32) -> (r: u32)
    ensures
        r == regs::with_bit(acr, 10, false),
{
    clear_bit(acr, 10)
}

/// The key writes of `unlock`: none when CR shows the flash unlocked (LOCK,
/// bit 0, clear), otherwise the two keys, in order, to KEYR.
pub fn unlock_keys(cr: u32) -> (r: Option<[u32; 2]>)
    ensures
        r == if regs::bit(cr, 0) { Some([FLASH_KEY1, FLASH_KEY2]) } else { None::<[u32; 2]> },
{
    if test_bit(cr, 0) {
        Some([FLASH_KEY1, FLASH_KEY2])
    } else {
        None
    }
}

/// Outcome of `unlock` once the keys are written: an error when CR still
/// shows the flash locked.
pub fn unlock(cr_after_keys: u32) -> (r: Result<(), FlashError>)
    ensures
        r == if regs::bit(cr_after_keys, 0) { Err::<(), FlashError>(FlashError::UnlockFailed) } else { Ok(()) },
{
    if test_bit(cr_after_keys, 0) {
        Err(FlashError::UnlockFailed)
    } else {
        Ok(())
    }
}

/// CR with the flash locked (LOCK, bit 0).
pub fn lock(cr: u32) -> (r: u32)
    ensures
        r == regs::with_bit(cr, 0, true),
{
    set_bit(cr, 0)
}

/// Whether SR reports an operation in progress (BSY, bit 16).
pub fn is_busy(sr: u32) -> (r: bool)
    ensures
        r == regs::bit(sr, 16),
{
    test_bit(sr, 16)
}

/// SR word of `clear_errors`: the low 16 bits of SR (the error flags), which
/// writing back clears.
pub fn clear_errors(sr: u32) -> (r: u32)
    ensures
        r == sr & 0x0000_FFFFu32,
{
    sr & 0x0000_FFFF
}

/// The two CR words of `erase_sector` (after unlocking, waiting and clearing
/// errors): first with SNB (bits 8-15) cleared, `sector << 8` or-ed in and
/// SER (bit 1) set, then the same with STRT (bit 7) added to start the erase.
pub fn erase_sector(sector: u32, cr: u32) -> (r: (u32, u32))
    ensures
        r.0 == (cr & !(0xFFu32 << 8)) | (sector << 8) | (1u32 << 1),
        r.1 == r.0 | (1u32 << 7),
{
    let val = (cr & !(0xFFu32 << 8)) | (sector << 8) | (1u32 << 1);
    (val, val | (1u32 << 7))
}

/// CR once an erase has finished: SER (bit 1) cleared.
pub fn end_erase(cr: u32) -> (r: u32)
    ensures
        r == regs::with_bit(cr, 1, false),
{
    clear_bit(cr, 1)
}

/// One double-word programming operation: the two 32-bit halves stored at
/// `address` (low word) and `address + 4` (high word), with PG set in CR.
#[derive(Clone, Copy, Debug, PartialEq, Eq, Structural)]
pub struct DoubleWordProgram {
    /// Flash address of the double word.
    pub address: usize,
    /// Bits 0-31 of the data.
    pub low: u32,
    /// Bits 32-63 of the data.
    pub high: u32,
}

/// The programming of `program_double_word`: an alignment error unless the
/// address is a multiple of 8, otherwise the double word split into its low
/// and high halves. Unlocking, which can fail, is done around it.
pub fn program_double_word(address: usize, data: u64) -> (r: Result<DoubleWordProgram, FlashError>)
    ensures
        address % 8 != 0 ==> r == Err::<DoubleWordProgram, FlashError>(FlashError::AlignmentError),
        address % 8 == 0 ==> r == Ok::<DoubleWordProgram, FlashError>(DoubleWordProgram { address, low: data as u32, high: (data >> 32u64) as u32 }),
{
    if address % 8 != 0 {
        return Err(FlashError::AlignmentError);
    }
    Ok(DoubleWordProgram { address, low: data as u32, high: (data >> 32) as u32 })
}

/// CR with programming enabled (PG, bit 0) for `program_double_word`.
pub fn start_programming(cr: u32) -> (r: u32)
    ensures
        r == regs::with_bit(cr, 0, true),
{
    set_bit(cr, 0)
}

/// CR once programming has finished: PG (bit 0) cleared.
pub fn end_programming(cr: u32) -> (r: u32)
    ensures
        r == regs::with_bit(cr, 0, false),
{
    clear_bit(cr, 0)
}

/// The little-endian 64-bit word made of the eight bytes of `s` from `base`.
pub open spec fn le_u64(s: Seq<u8>, base: int) -> u64 {
    (s[base] as u64) | ((s[base + 1] as u64) << 8u64) | ((s[base + 2] as u64) << 16u64) | ((s[base + 3] as u64) << 24u64)
        | ((s[base + 4] as u64) << 32u64) | ((s[base + 5] as u64) << 40u64) | ((s[base + 6] as u64) << 48u64) | ((
    s[base + 7] as u64) << 56u64)
}

/// The double words of `program`: an alignment error unless both the
/// address and the length are multiples of 8, otherwise, for each 8-byte
/// chunk `i` of `data`, its little-endian value to program at
/// `address + 8 * i`, in order. Programming stops at the first chunk whose
/// `program_double_word` fails.
pub fn program(address: usize, data: &[u8]) -> (r: Result<Vec<(usize, u64)>, FlashError>)
    requires
        data@.len() == 0 || address + data@.len() - 8 <= usize::MAX,
    ensures
        (address % 8 != 0 || data@.len() % 8 != 0) ==> r == Err::<Vec<(usize, u64)>, FlashError>(FlashError::AlignmentError),
        (address % 8 == 0 && data@.len() % 8 == 0) ==> (r matches Ok(v) && v@.len() == data@.len() / 8
            && forall|i: int| #![trigger v@[i]] 0 <= i < v@.len() ==> v@[i].0 == address + 8 * i && v@[i].1 == le_u64(data@, 8 * i)),
{
    if address % 8 != 0 || data.len() % 8 != 0 {
        return Err(FlashError::AlignmentError);
    }
    let n = data.len() / 8;
    let mut v: Vec<(usize, u64)> = Vec::new();
    let mut i: usize = 0;
    while i < n
        invariant
            n == data@.len() / 8,
            data@.len() % 8 == 0,
            data@.len() == 0 || address + data@.len() - 8 <= usize::MAX,
            i <= n,
            v@.len() == i,
            forall|k: int| #![trigger v@[k]] 0 <= k < i ==> v@[k].0 == address + 8 * k && v@[k].1 == le_u64(data@, 8 * k),
        decreases n - i,
    {
        let b = 8 * i;
        let w: u64 = (data[b] as u64) | ((data[b + 1] as u64) << 8u64) | ((data[b + 2] as u64) << 16u64) | ((data[b + 3] as u64) << 24u64)
            | ((data[b + 4] as u64) << 32u64) | ((data[b + 5] as u64) << 40u64) | ((data[b + 6] as u64) << 48u64) | ((data[b + 7] as u64) << 56u64);
        v.push((address + b, w));
        i = i + 1;
    }
    Ok(v)
}

} // verus!
