//! PWR - Power Control
//!
//! # Overview
//! STM32U5 Power Control (PWR) module manages the power supply,
//! voltage scaling, and low-power modes of the chip.
//!
//! # Features
//! - Voltage scaling (Range 1: 160 MHz, Range 2: 110 MHz, Range 3: 55 MHz)
//! - Multiple low-power modes (Run, Sleep, Stop0/1/2/3, Standby, Shutdown)
//! - Power supply monitoring (PVD, VBAT)
//! - Backup domain control
//! - Wakeup sources management
//! - USB Type-C Power Delivery support
//!
//! # Power Modes
//! Reference: RM0456 Chapter 10, Section 10.7
//!
//! | Mode | Description | Wake-up |
//! |------|-------------|---------|
//! | Run | Full performance, all clocks running | - |
//! | Sleep | CPU off, peripherals running | Any interrupt |
//! | Stop0 | 160 MHz capable, all SRAM retained | Any EXTI |
//! | Stop1 | Partial retention, faster wake | Any EXTI |
//! | Stop2 | Minimal retention | Any EXTI |
//! | Stop3 | Only BKPRAM retained | Any EXTI |
//! | Standby | Only RTC/LSE/BKPRAM | WKUP pins, RTC, reset |
//! | Shutdown | Only RTC/LPUART | WKUP pins, RTC |
//!
//! # Reference
//! - RM0456 Chapter 10: Power control (PWR)
//! - RM0456 Section 10.1: PWR introduction
//! - RM0456 Section 10.2: PWR main features
//! - RM0456 Section 10.3: PWR regulation
//! - RM0456 Section 10.4: Power supply supervisor
//! - RM0456 Section 10.5: Backup domain
//! - RM0456 Section 10.6: Low-power modes
//! - RM0456 Section 10.7: Power mode transitions
//! - RM0456 Section 10.8: PWR registers
//! PWR base address (non-secure mode)
//! Reference: RM0456 Chapter 2, Table 1 or memory map
use vstd::prelude::*;
use crate::regs::{self, clear_bit, set_bit, set_field, test_bit};
pub mod reg;
pub mod cr1_bits;
pub mod cr3_bits;
pub mod vosr_bits;
pub mod svmcr_bits;
pub mod sr_bits;

verus! {

broadcast use regs::lemma_low_mask_value;

pub const PWR_BASE: usize = 0x4002_0000;
pub const PWR_BASE_SEC: usize = 0x5002_0000;

#[derive(Clone, Copy, Debug, PartialEq, Eq, Structural)]
pub enum LowPowerMode {
    /// Run mode (normal operation)
    Run,
    /// Sleep mode
    Sleep,
    /// Stop 0 mode (highest performance in stop)
    Stop0,
    /// Stop 1 mode (partial retention)
    Stop1,
    /// Stop 2 mode (minimal retention)
    Stop2,
    /// Stop 3 mode (BKPRAM retained)
    Stop3,
    /// Standby mode
    Standby,
    /// Shutdown mode
    Shutdown,
}

impl LowPowerMode {
    /// The register encoding of this value.
    pub open spec fn value(self) -> u32 {
        match self {
            LowPowerMode::Run => 0b000u32,
            LowPowerMode::Sleep => 0b000u32,
            LowPowerMode::Stop0 => 0b000u32,
            LowPowerMode::Stop1 => 0b001u32,
            LowPowerMode::Stop2 => 0b010u32,
            LowPowerMode::Stop3 => 0b011u32,
            LowPowerMode::Standby => 0b100u32,
            LowPowerMode::Shutdown => 0b110u32,
        }
    }

    /// The register encoding of this value.
    pub fn bits(self) -> (r: u32)
        ensures
            r == self.value(),
    {
        match self {
            LowPowerMode::Run => 0b000,
            LowPowerMode::Sleep => 0b000,
            LowPowerMode::Stop0 => 0b000,
            LowPowerMode::Stop1 => 0b001,
            LowPowerMode::Stop2 => 0b010,
            LowPowerMode::Stop3 => 0b011,
            LowPowerMode::Standby => 0b100,
            LowPowerMode::Shutdown => 0b110,
        }
    }
}

#[derive(Clone, Copy, Debug, PartialEq, Eq, Structural)]
pub enum VoltageScaling {
    /// Range 1: up to 160 MHz
    Range1,
    /// Range 2: up to 110 MHz
    Range2,
    /// Range 3: up to 55 MHz
    Range3,
}

impl VoltageScaling {
    /// The register encoding of this value.
    pub open spec fn value(self) -> u32 {
        match self {
            VoltageScaling::Range1 => 0b00u32,
            VoltageScaling::Range2 => 0b01u32,
            VoltageScaling::Range3 => 0b10u32,
        }
    }

    /// The register encoding of this value.
    pub fn bits(self) -> (r: u32)
        ensures
            r == self.value(),
    {
        match self {
            VoltageScaling::Range1 => 0b00,
            VoltageScaling::Range2 => 0b01,
            VoltageScaling::Range3 => 0b10,
        }
    }
}

/// The two words of `init`: the RCC word at 0x4002_109C with the PWR clock
/// enabled (bit 28), then CR1 with backup-domain write access (DBP, bit 8);
/// `init` then waits until `is_backup_domain_writable` reads true.
pub fn init(apb1enr: u32, cr1: u32) -> (r: (u32, u32))
    ensures
        r.0 == apb1enr | (1u32 << 28u32),
        r.1 == regs::with_bit(cr1, 8, true),
{
    (apb1enr | (1u32 << 28u32), set_bit(cr1, 8))
}

/// Whether CR1 grants backup-domain write access (DBP, bit 8).
pub fn is_backup_domain_writable(cr1: u32) -> (r: bool)
    ensures
        r == regs::bit(cr1, 8),
{
    test_bit(cr1, 8)
}

/// VOSR with the voltage range (VOS, bits 16-17) set; `set_voltage_scaling`
/// writes it and waits until `is_voltage_ready` reads true.
pub fn set_voltage_scaling(range: VoltageScaling, vosr: u32) -> (r: u32)
    ensures
        r == regs::with_field(vosr, 16, 2, range.value()),
        regs::field(r, 16, 2) == range.value(),
{
    proof {
        regs::lemma_with_field(vosr, 16, 2, range.value());
    }
    set_field(vosr, 16, 2, range.bits())
}

/// Whether the voltage range is ready (VOSRDY, bit 15 of VOSR).
pub fn is_voltage_ready(vosr: u32) -> (r: bool)
    ensures
        r == regs::bit(vosr, 15),
{
    test_bit(vosr, 15)
}

/// VOSR of `configure_for_160mhz`: range 1, the one that allows 160 MHz.
pub fn configure_for_160mhz(vosr: u32) -> (r: u32)
    ensures
        r == regs::with_field(vosr, 16, 2, VoltageScaling::Range1.value()),
{
    set_voltage_scaling(VoltageScaling::Range1, vosr)
}

/// CR1 of `enter_sleep_mode`: the low-power mode selection (LPMS, bits
/// 0-2) cleared, before the core waits for an interrupt.
pub fn enter_sleep_mode(cr1: u32) -> (r: u32)
    ensures
        r == regs::with_field(cr1, 0, 3, 0),
{
    set_field(cr1, 0, 3, 0)
}

/// CR1 of `enter_stop_mode`: LPMS set to `mode`, before the core waits for
/// an interrupt.
pub fn enter_stop_mode(mode: LowPowerMode, cr1: u32) -> (r: u32)
    ensures
        r == regs::with_field(cr1, 0, 3, mode.value()),
        regs::field(r, 0, 3) == mode.value(),
{
    proof {
        regs::lemma_with_field(cr1, 0, 3, mode.value());
    }
    set_field(cr1, 0, 3, mode.bits())
}

/// SR word that `enter_stop_mode` writes after wake-up: the value read with
/// the stop flag (STOPF, bit 6) cleared.
pub fn clear_stop_flag(sr: u32) -> (r: u32)
    ensures
        r == regs::with_bit(sr, 6, false),
{
    clear_bit(sr, 6)
}

/// CR1 of `enter_standby_mode`: LPMS set to Standby.
pub fn enter_standby_mode(cr1: u32) -> (r: u32)
    ensures
        r == regs::with_field(cr1, 0, 3, LowPowerMode::Standby.value()),
{
    set_field(cr1, 0, 3, LowPowerMode::Standby.bits())
}

/// CR1 of `enter_shutdown_mode`: LPMS set to Shutdown.
pub fn enter_shutdown_mode(cr1: u32) -> (r: u32)
    ensures
        r == regs::with_field(cr1, 0, 3, LowPowerMode::Shutdown.value()),
{
    set_field(cr1, 0, 3, LowPowerMode::Shutdown.bits())
}

/// Whether `pin` names a wake-up pin (1 to 8).
pub open spec fn is_wakeup_pin(pin: u8) -> bool {
    1 <= pin <= 8
}

/// CR3 of `enable_wakeup_pin`: the enable bit of wake-up pin `pin` (bit
/// 7 + `pin`) set. Pins outside 1-8 are ignored: nothing is written.
pub fn enable_wakeup_pin(pin: u8, cr3: u32) -> (r: Option<u32>)
    ensures
        is_wakeup_pin(pin) ==> r == Some(regs::with_bit(cr3, (7 + pin) as u32, true)),
        !is_wakeup_pin(pin) ==> r is None,
{
    if pin < 1 || pin > 8 {
        return None;
    }
    Some(set_bit(cr3, 8 + pin as u32 - 1))
}

/// CR3 of `disable_wakeup_pin`: the enable bit of wake-up pin `pin`
/// cleared. Pins outside 1-8 are ignored.
pub fn disable_wakeup_pin(pin: u8, cr3: u32) -> (r: Option<u32>)
    ensures
        is_wakeup_pin(pin) ==> r == Some(regs::with_bit(cr3, (7 + pin) as u32, false)),
        !is_wakeup_pin(pin) ==> r is None,
{
    if pin < 1 || pin > 8 {
        return None;
    }
    Some(clear_bit(cr3, 8 + pin as u32 - 1))
}

/// CR1 with backup-domain write access enabled (DBP, bit 8); the write is
/// followed by a wait until `is_backup_domain_writable` reads true.
pub fn enable_backup_domain_write_access(cr1: u32) -> (r: u32)
    ensures
        r == regs::with_bit(cr1, 8, true),
{
    set_bit(cr1, 8)
}

/// CR1 with backup-domain write access disabled (DBP, bit 8).
pub fn disable_backup_domain_write_access(cr1: u32) -> (r: u32)
    ensures
        r == regs::with_bit(cr1, 8, false),
{
    clear_bit(cr1, 8)
}

/// BDCR1 with the backup regulator enabled (BREN, bit 0).
pub fn enable_backup_regulator(bdcr1: u32) -> (r: u32)
    ensures
        r == regs::with_bit(bdcr1, 0, true),
{
    set_bit(bdcr1, 0)
}

/// BDCR1 with the backup regulator disabled (BREN, bit 0).
pub fn disable_backup_regulator(bdcr1: u32) -> (r: u32)
    ensures
        r == regs::with_bit(bdcr1, 0, false),
{
    clear_bit(bdcr1, 0)
}

/// Whether the voltage detector output is active (PVDO, bit 0 of SR).
pub fn is_pvd_output_active(sr: u32) -> (r: bool)
    ensures
        r == regs::bit(sr, 0),
{
    test_bit(sr, 0)
}

/// Whether WUSR has the flag of wake-up pin `pin` (bit 15 + `pin`); false
/// for pins outside 1-8.
pub fn is_wakeup_flag_set(pin: u8, wusr: u32) -> (r: bool)
    ensures
        r == (is_wakeup_pin(pin) && regs::bit(wusr, (15 + pin) as u32)),
{
    if pin < 1 || pin > 8 {
        return false;
    }
    test_bit(wusr, pin as u32 - 1 + 16)
}

/// WUSCR of `clear_wakeup_flag`: the clear bit of wake-up pin `pin` (bit
/// `pin` − 1) set. Pins outside 1-8 are ignored.
pub fn clear_wakeup_flag(pin: u8, wuscr: u32) -> (r: Option<u32>)
    ensures
        is_wakeup_pin(pin) ==> r == Some(regs::with_bit(wuscr, (pin - 1) as u32, true)),
        !is_wakeup_pin(pin) ==> r is None,
{
    if pin < 1 || pin > 8 {
        return None;
    }
    Some(set_bit(wuscr, pin as u32 - 1))
}

/// SVMCR with the voltage detector enabled (PVDEN, bit 0).
pub fn enable_pvd(svmcr: u32) -> (r: u32)
    ensures
        r == regs::with_bit(svmcr, 0, true),
{
    set_bit(svmcr, 0)
}

/// SVMCR with the voltage detector disabled (PVDEN, bit 0).
pub fn disable_pvd(svmcr: u32) -> (r: u32)
    ensures
        r == regs::with_bit(svmcr, 0, false),
{
    clear_bit(svmcr, 0)
}

/// SVMCR of `set_pvd_level`: the detector level (PVDLS, bits 1-3) set to
/// `level`. Levels above 7 are ignored: nothing is written.
pub fn set_pvd_level(level: u8, svmcr: u32) -> (r: Option<u32>)
    ensures
        level <= 7 ==> r == Some(regs::with_field(svmcr, 1, 3, level as u32)),
        level <= 7 ==> regs::field(r->0, 1, 3) == level,
        level > 7 ==> r is None,
{
    if level > 7 {
        return None;
    }
    proof {
        regs::lemma_with_field(svmcr, 1, 3, level as u32);
    }
    Some(set_field(svmcr, 1, 3, level as u32))
}

/// CR3 of `enable_ucpd`: the dead-battery pull-downs disabled flag
/// (UCPD_DBDIS, bit 6) cleared.
pub fn enable_ucpd(cr3: u32) -> (r: u32)
    ensures
        r == regs::with_bit(cr3, 6, false),
{
    clear_bit(cr3, 6)
}

/// CR3 of `disable_ucpd`: UCPD_DBDIS (bit 6) set.
pub fn disable_ucpd(cr3: u32) -> (r: u32)
    ensures
        r == regs::with_bit(cr3, 6, true),
{
    set_bit(cr3, 6)
}

} // verus!
