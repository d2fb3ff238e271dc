use vstd::prelude::*;

verus! {

pub const IER1: usize = 0x00;
pub const IER2: usize = 0x04;
pub const IER3: usize = 0x08;
pub const IER4: usize = 0x0C;
pub const ISR1: usize = 0x20;
pub const ISR2: usize = 0x24;
pub const ISR3: usize = 0x28;
pub const ISR4: usize = 0x2C;
pub const IPC1: usize = 0x40;
pub const IPC2: usize = 0x44;
pub const IPC3: usize = 0x48;
pub const IPC4: usize = 0x4C;
pub const IPC5: usize = 0x50;
pub const IPC6: usize = 0x54;
pub const IPC7: usize = 0x58;
pub const IPC8: usize = 0x5C;
pub const IPC9: usize = 0x60;
pub const IPC10: usize = 0x64;
pub const IPC11: usize = 0x68;
pub const IPC12: usize = 0x6C;
pub const IPC13: usize = 0x70;
pub const IPC14: usize = 0x74;
pub const IPC15: usize = 0x78;
pub const IPC16: usize = 0x7C;

} // verus!
