use vstd::prelude::*;

verus! {

pub const CREL: usize = 0x00;
pub const ENDN: usize = 0x04;
pub const DBTP: usize = 0x0C;
pub const TEST: usize = 0x10;
pub const RWD: usize = 0x14;
pub const CCCR: usize = 0x18;
pub const NBTP: usize = 0x1C;
pub const TSCC: usize = 0x20;
pub const TSCV: usize = 0x24;
pub const TOCC: usize = 0x28;
pub const TOCV: usize = 0x2C;
pub const ECR: usize = 0x40;
pub const PSR: usize = 0x44;
pub const TDCR: usize = 0x48;
pub const IR: usize = 0x50;
pub const IE: usize = 0x54;
pub const ILS: usize = 0x58;
pub const ILE: usize = 0x5C;
pub const GFC: usize = 0x80;
pub const SIDFC: usize = 0x84;
pub const XIDFC: usize = 0x88;
pub const XIDAM: usize = 0x90;
pub const HPMS: usize = 0x94;
pub const NDAT1: usize = 0x98;
pub const NDAT2: usize = 0x9C;
pub const RXF0C: usize = 0xA0;
pub const RXF0S: usize = 0xA4;
pub const RXF0A: usize = 0xA8;
pub const RXBC: usize = 0xAC;
pub const RXF1C: usize = 0xB0;
pub const RXF1S: usize = 0xB4;
pub const RXF1A: usize = 0xB8;
pub const RXESC: usize = 0xBC;
pub const TXBC: usize = 0xC0;
pub const TXFQS: usize = 0xC4;
pub const TXESC: usize = 0xC8;
pub const TXBRP: usize = 0xCC;
pub const TXBAR: usize = 0xD0;
pub const TXBCR: usize = 0xD4;
pub const TXBTO: usize = 0xD8;
pub const TXBCF: usize = 0xDC;
pub const TXBTIE: usize = 0xE0;
pub const TXBCIE: usize = 0xE4;
pub const TXEFC: usize = 0xF0;
pub const TXEFS: usize = 0xF4;
pub const TXEFA: usize = 0xF8;

} // verus!
