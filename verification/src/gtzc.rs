//! GTZC - Global TrustZone Controller
//!
//! ## Features
//! - **TZIC**: TrustZone Interrupt Controller
//! - **MPCWM**: Memory Protection Controller Wrapper
//! - **TDC**: TrustZone Decorator
//! - **ETZPC**: Extended TrustZone Peripheral Controller
//!
//! ## Reference
//! - RM0456 Reference Manual, Chapter 3: Global TrustZone controller (GTZC)
//! - STM32U5 Reference Manual for specific GTZC features
use vstd::prelude::*;
use crate::regs::{self, RegisterWrite, clear_bit, get_field, set_bit, set_field, test_bit};
pub mod tzic_reg;
pub mod mpcwm_reg;
pub mod tdc_reg;
pub mod etzpc_reg;
pub mod tzic_ier_bits;
pub mod tzic_isr_bits;
pub mod tzic_ipc_bits;
pub mod mpcwm_cr_bits;
pub mod mpcwm_sr_bits;
pub mod tdc_cr_bits;
pub mod etzpc_cr_bits;
pub mod etzpc_decprot_bits;
pub mod irq;
pub mod periph_id;

verus! {

broadcast use regs::lemma_low_mask_value;

/// TZIC base address
/// TrustZone Interrupt Controller
pub const GTZC_TZIC_BASE: usize = 0x4000_0000;
/// MPCWM1 base address
/// Memory Protection Controller Wrapper 1
pub const GTZC_MPCWM1_BASE: usize = 0x4003_0000;
/// TDC1 base address
/// TrustZone Decorator 1
pub const GTZC_TDC1_BASE: usize = 0x4003_1000;
/// ETZPC base address
/// Extended TrustZone Peripheral Controller
pub const GTZC_ETZPC_BASE: usize = 0x4003_2000;

/// GTZC Peripheral Secure Attribution
#[derive(Clone, Copy, Debug, PartialEq, Eq, Structural)]
pub enum SecureAttribute {
    /// Secure
    Secure,
    /// Non-Secure
    NonSecure,
}

impl SecureAttribute {
    /// The register encoding of this value.
    pub open spec fn value(self) -> u32 {
        match self {
            SecureAttribute::Secure => 0u32,
            SecureAttribute::NonSecure => 1u32,
        }
    }

    /// The register encoding of this value.
    pub fn bits(self) -> (r: u32)
        ensures
            r == self.value(),
    {
        match self {
            SecureAttribute::Secure => 0,
            SecureAttribute::NonSecure => 1,
        }
    }
}

/// GTZC Lock Status
#[derive(Clone, Copy, Debug, PartialEq, Eq, Structural)]
pub enum LockStatus {
    /// Unlocked
    Unlocked,
    /// Locked
    Locked,
}

impl LockStatus {
    /// The register encoding of this value.
    pub open spec fn value(self) -> u32 {
        match self {
            LockStatus::Unlocked => 0u32,
            LockStatus::Locked => 1u32,
        }
    }

    /// The register encoding of this value.
    pub fn bits(self) -> (r: u32)
        ensures
            r == self.value(),
    {
        match self {
            LockStatus::Unlocked => 0,
            LockStatus::Locked => 1,
        }
    }
}

/// GTZC IRQ Configuration
#[derive(Clone, Copy, Debug)]
pub struct IrqConfig {
    pub secure: bool,
    pub priority: u8,
}

/// GTZC Memory Region Configuration
#[derive(Clone, Copy, Debug)]
pub struct MemoryRegionConfig {
    pub secure: bool,
    pub read_enabled: bool,
    pub write_enabled: bool,
    pub exec_enabled: bool,
}

/// GTZC Driver
pub struct Gtzc;

impl Gtzc {
    pub fn new() -> (r: Self) {
        Gtzc
    }

    /// IER1 word of `tzic_enable_irq`: only the interrupt's bit, for
    /// interrupts below 32; `None` (nothing written) otherwise.
    pub fn tzic_enable_irq(&self, irq: u8) -> (r: Option<u32>)
        ensures
            r == if irq < 32 { Some(1u32 << (irq as u32)) } else { None::<u32> },
    {
        if irq < 32 {
            Some(1u32 << (irq as u32))
        } else {
            None
        }
    }

    /// IER1 with the interrupt's bit cleared, for interrupts below 32.
    pub fn tzic_disable_irq(&self, irq: u8, ier: u32) -> (r: Option<u32>)
        ensures
            r == if irq < 32 { Some(regs::with_bit(ier, irq as u32, false)) } else { None::<u32> },
    {
        if irq < 32 {
            Some(clear_bit(ier, irq as u32))
        } else {
            None
        }
    }

    /// Whether ISR1 flags the interrupt; `false` for interrupts from 32 up.
    pub fn tzic_get_irq_status(&self, irq: u8, isr: u32) -> (r: bool)
        ensures
            r == (irq < 32 && regs::bit(isr, irq as u32)),
    {
        if irq < 32 {
            test_bit(isr, irq as u32)
        } else {
            false
        }
    }

    /// ISR1 word of `tzic_clear_irq`, for interrupts below 32.
    pub fn tzic_clear_irq(&self, irq: u8) -> (r: Option<u32>)
        ensures
            r == if irq < 32 { Some(1u32 << (irq as u32)) } else { None::<u32> },
    {
        self.tzic_enable_irq(irq)
    }

    /// Offset of the IPC register holding interrupt `irq` (four interrupts
    /// per register).
    pub fn tzic_ipc_register(&self, irq: u8) -> (r: usize)
        ensures
            r == tzic_reg::IPC1 + (irq / 4) * 4,
    {
        tzic_reg::IPC1 + (irq as usize / 4) * 4
    }

    /// IPC value of `tzic_configure_irq` (for interrupts below 32): the
    /// interrupt's byte (at bit `8 * (irq % 4)`) cleared, then the low four
    /// bits of the priority placed in its upper nibble and the secure flag in
    /// its lowest bit.
    pub fn tzic_configure_irq(&self, irq: u8, config: &IrqConfig, ipc: u32) -> (r: Option<u32>)
        ensures
            r == if irq < 32 {
                let off = (8 * (irq % 4)) as u32;
                Some((ipc & !(0xFFu32 << off)) | (((config.priority as u32) & 0xF) << (off + 4) as u32) | (
                if config.secure { 1u32 << off } else { 0 }))
            } else {
                None::<u32>
            },
    {
        if irq < 32 {
            let off: u32 = (irq as u32 % 4) * 8;
            let sec: u32 = if config.secure { 1u32 << off } else { 0 };
            Some((ipc & !(0xFFu32 << off)) | (((config.priority as u32) & 0xF) << (off + 4)) | sec)
        } else {
            None
        }
    }

    /// MPCWM CR word of `mpcwm_enable`.
    pub fn mpcwm_enable(&self) -> (r: u32)
        ensures
            r == mpcwm_cr_bits::MPCWMEN,
    {
        mpcwm_cr_bits::MPCWMEN
    }

    /// MPCWM CR word of `mpcwm_disable`.
    pub fn mpcwm_disable(&self) -> (r: u32)
        ensures
            r == 0,
    {
        0
    }

    /// Whether the MPCWM status reports ready (bit 0).
    pub fn mpcwm_is_ready(&self, sr: u32) -> (r: bool)
        ensures
            r == regs::bit(sr, 0),
    {
        test_bit(sr, 0)
    }

    /// Whether the MPCWM status reports busy (bit 1).
    pub fn mpcwm_is_busy(&self, sr: u32) -> (r: bool)
        ensures
            r == regs::bit(sr, 1),
    {
        test_bit(sr, 1)
    }

    /// The write of `mpcwm_set_secure_region` for regions below 8: 0x3 to
    /// the region's security register when secure, 0 otherwise.
    pub fn mpcwm_set_secure_region(&self, region: u8, secure: bool) -> (r: Option<RegisterWrite>)
        ensures
            r == if region < 8 {
                Some(RegisterWrite { offset: (mpcwm_reg::SR1 + 4 * region) as usize, value: if secure { 3u32 } else { 0u32 } })
            } else {
                None::<RegisterWrite>
            },
    {
        if region < 8 {
            Some(RegisterWrite { offset: mpcwm_reg::SR1 + region as usize * 4, value: if secure { 3 } else { 0 } })
        } else {
            None
        }
    }

    /// Whether a region's security register (`value`) marks it secure:
    /// exactly 0x3, and only for regions below 8.
    pub fn mpcwm_get_secure_region(&self, region: u8, value: u32) -> (r: bool)
        ensures
            r == (region < 8 && value == 3),
    {
        region < 8 && value == 3
    }

    /// The write of `mpcwm_lock_region` for regions below 8: the lock bit (31)
    /// to the region's control register.
    pub fn mpcwm_lock_region(&self, region: u8) -> (r: Option<RegisterWrite>)
        ensures
            r == if region < 8 {
                Some(RegisterWrite { offset: (mpcwm_reg::CR1 + 4 * region) as usize, value: 1u32 << 31 })
            } else {
                None::<RegisterWrite>
            },
    {
        if region < 8 {
            Some(RegisterWrite { offset: mpcwm_reg::CR1 + region as usize * 4, value: 1u32 << 31 })
        } else {
            None
        }
    }

    /// TDC CR word of `tdc_enable`.
    pub fn tdc_enable(&self) -> (r: u32)
        ensures
            r == tdc_cr_bits::TDCEN,
    {
        tdc_cr_bits::TDCEN
    }

    /// TDC CR word of `tdc_disable`.
    pub fn tdc_disable(&self) -> (r: u32)
        ensures
            r == 0,
    {
        0
    }

    /// Offset of the DECPROT register of peripheral `periph_id` (four
    /// peripherals per register).
    pub fn etzpc_decprot_register(&self, periph_id: u8) -> (r: usize)
        ensures
            r == etzpc_reg::DECPROT0 + (periph_id / 4) * 4,
    {
        etzpc_reg::DECPROT0 + (periph_id as usize / 4) * 4
    }

    /// First bit of the peripheral's byte in its DECPROT register.
    pub open spec fn decprot_pos(periph_id: u8) -> u32 {
        (8 * (periph_id % 4)) as u32
    }

    /// DECPROT of `etzpc_set_peripheral_secure` (for peripherals below 32):
    /// the peripheral's 2-bit protection field set to 1 (secure) or 2
    /// (non-secure).
    pub fn etzpc_set_peripheral_secure(&self, periph_id: u8, secure: bool, decprot: u32) -> (r: Option<u32>)
        ensures
            r == if periph_id < 32 {
                Some(regs::with_field(decprot, Self::decprot_pos(periph_id), 2, if secure { 1u32 } else { 2u32 }))
            } else {
                None::<u32>
            },
    {
        if periph_id < 32 {
            let off: u32 = (periph_id as u32 % 4) * 8;
            let v: u32 = if secure { 1 } else { 2 };
            Some(set_field(decprot, off, 2, v))
        } else {
            None
        }
    }

    /// Whether DECPROT marks the peripheral secure: its 2-bit field is 1; for
    /// peripherals from 32 up, `false`.
    pub fn etzpc_get_peripheral_secure(&self, periph_id: u8, decprot: u32) -> (r: bool)
        ensures
            r == (periph_id < 32 && regs::field(decprot, Self::decprot_pos(periph_id), 2) == 1),
    {
        if periph_id < 32 {
            let off: u32 = (periph_id as u32 % 4) * 8;
            get_field(decprot, off, 2) == 1
        } else {
            false
        }
    }

    /// DECPROT of `etzpc_lock_peripheral` (for peripherals below 32): the
    /// peripheral's lock bit (bit 2 of its byte) set.
    pub fn etzpc_lock_peripheral(&self, periph_id: u8, decprot: u32) -> (r: Option<u32>)
        ensures
            r == if periph_id < 32 { Some(regs::with_bit(decprot, (Self::decprot_pos(periph_id) + 2) as u32, true)) } else { None::<u32> },
    {
        if periph_id < 32 {
            let off: u32 = (periph_id as u32 % 4) * 8;
            Some(set_bit(decprot, off + 2))
        } else {
            None
        }
    }

    /// Whether DECPROT has the peripheral locked; `false` from 32 up.
    pub fn etzpc_is_locked(&self, periph_id: u8, decprot: u32) -> (r: bool)
        ensures
            r == (periph_id < 32 && regs::bit(decprot, (Self::decprot_pos(periph_id) + 2) as u32)),
    {
        if periph_id < 32 {
            let off: u32 = (periph_id as u32 % 4) * 8;
            test_bit(decprot, off + 2)
        } else {
            false
        }
    }

    /// ETZPC CR word of `etzpc_lock_all`.
    pub fn etzpc_lock_all(&self) -> (r: u32)
        ensures
            r == etzpc_cr_bits::ETZPC_LOCK,
    {
        etzpc_cr_bits::ETZPC_LOCK
    }

    /// ETZPC CR word of `etzpc_unlock_all`.
    pub fn etzpc_unlock_all(&self) -> (r: u32)
        ensures
            r == 0,
    {
        0
    }

}

/// Reading a peripheral's protection back after setting it gives the
/// setting: `etzpc_get_peripheral_secure` on the DECPROT written by
/// `etzpc_set_peripheral_secure` returns `secure`, for every peripheral below
/// 32.
pub proof fn lemma_etzpc_secure_roundtrip(periph_id: u8, secure: bool, decprot: u32)
    requires
        periph_id < 32,
    ensures
        (regs::field(regs::with_field(decprot, Gtzc::decprot_pos(periph_id), 2, if secure { 1u32 } else { 2u32 }), Gtzc::decprot_pos(periph_id), 2) == 1) == secure,
{
    regs::lemma_with_field(decprot, Gtzc::decprot_pos(periph_id), 2, if secure { 1u32 } else { 2u32 });
}

} // verus!
