use vstd::prelude::*;

verus! {

/// Core Release Register
pub const CREL: usize = 0x00;
/// Endian Register
pub const ENDN: usize = 0x04;
/// Data Bit Timing & Prescaler Register
pub const DBTP: usize = 0x0C;
/// Test Register
pub const TEST: usize = 0x10;
/// RAM Watchdog Register
pub const RWD: usize = 0x14;
/// CC Control Register
pub const CCCR: usize = 0x18;
/// Nominal Bit Timing & Prescaler Register
pub const NBTP: usize = 0x1C;
/// Timestamp Counter Configuration Register
pub const TSCC: usize = 0x20;
/// Timestamp Counter Value Register
pub const TSCV: usize = 0x24;
/// Timeout Counter Configuration Register
pub const TOCC: usize = 0x28;
/// Timeout Counter Value Register
pub const TOCV: usize = 0x2C;
/// Error Counter Register
pub const ECR: usize = 0x40;
/// Protocol Status Register
pub const PSR: usize = 0x44;
/// Transmitter Delay Compensation Register
pub const TDCR: usize = 0x48;
/// Interrupt Register
pub const IR: usize = 0x50;
/// Interrupt Enable Register
pub const IE: usize = 0x54;
/// Interrupt Line Select Register
pub const ILS: usize = 0x58;
/// Interrupt Line Enable Register
pub const ILE: usize = 0x5C;
/// Global Filter Configuration Register
pub const GFC: usize = 0x80;
/// Standard ID Filter Configuration Register
pub const SIDFC: usize = 0x84;
/// Extended ID Filter Configuration Register
pub const XIDFC: usize = 0x88;
/// Extended ID AND Mask Register
pub const XIDAM: usize = 0x90;
/// High Priority Message Status Register
pub const HPMS: usize = 0x94;
/// New Data 1 Register
pub const NDAT1: usize = 0x98;
/// New Data 2 Register
pub const NDAT2: usize = 0x9C;
/// Rx FIFO 0 Configuration Register
pub const RXF0C: usize = 0xA0;
/// Rx FIFO 0 Status Register
pub const RXF0S: usize = 0xA4;
/// Rx FIFO 0 Acknowledge Register
pub const RXF0A: usize = 0xA8;
/// Rx Buffer Configuration Register
pub const RXBC: usize = 0xAC;
/// Rx FIFO 1 Configuration Register
pub const RXF1C: usize = 0xB0;
/// Rx FIFO 1 Status Register
pub const RXF1S: usize = 0xB4;
/// Rx FIFO 1 Acknowledge Register
pub const RXF1A: usize = 0xB8;
/// Rx ESC Register
pub const RXESC: usize = 0xBC;
/// Tx Buffer Configuration Register
pub const TXBC: usize = 0xC0;
/// Tx FIFO/Queue Status Register
pub const TXFQS: usize = 0xC4;
pub const TXESC: usize = 0xC8;
pub const TXBRP: usize = 0xCC;
pub const TXBAR: usize = 0xD0;
pub const TXBCR: usize = 0xD4;
pub const TXBTO: usize = 0xD8;
pub const TXBCF: usize = 0xDC;
pub const TXBTIE: usize = 0xE0;
pub const TXBCIE: usize = 0xE4;
pub const TXEFC: usize = 0xF0;
pub const TXEFS: usize = 0xF4;
pub const TXEFA: usize = 0xF8;

} // verus!
