use vstd::prelude::*;

verus! {

pub const POWER: usize = 0x00;
pub const CLKCR: usize = 0x04;
pub const ARG: usize = 0x08;
pub const CMD: usize = 0x0C;
pub const RESPCMD: usize = 0x10;
pub const RESP1: usize = 0x14;
pub const RESP2: usize = 0x18;
pub const RESP3: usize = 0x1C;
pub const RESP4: usize = 0x20;
pub const DTIMER: usize = 0x24;
pub const DLEN: usize = 0x28;
pub const DCTRL: usize = 0x2C;
pub const DCOUNT: usize = 0x30;
pub const STA: usize = 0x34;
pub const ICR: usize = 0x38;
pub const MASK: usize = 0x3C;
pub const ACKTIME: usize = 0x40;
pub const IDMACTRL: usize = 0x50;
pub const IDMABASE0: usize = 0x58;
pub const IDMABASE1: usize = 0x64;
pub const FIFO: usize = 0x80;

} // verus!
