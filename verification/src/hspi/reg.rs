use vstd::prelude::*;

verus! {

/// HSPI control register
pub const CR: usize = 0x00;
/// HSPI device configuration register 1
pub const DCR1: usize = 0x08;
/// HSPI device configuration register 2
pub const DCR2: usize = 0x0C;
/// HSPI device configuration register 3
pub const DCR3: usize = 0x10;
/// HSPI device configuration register 4
pub const DCR4: usize = 0x14;
/// HSPI status register
pub const SR: usize = 0x20;
/// HSPI flag clear register
pub const FCR: usize = 0x24;
/// HSPI data length register
pub const DLR: usize = 0x40;
/// HSPI address register
pub const AR: usize = 0x48;
/// HSPI data register
pub const DR: usize = 0x50;
/// HSPI polling match mask register
pub const PSMKR: usize = 0x80;
/// HSPI polling match address register
pub const PSMAR: usize = 0x88;
/// HSPI polling interval register
pub const PIR: usize = 0x90;
/// HSPI communication configuration register
pub const CCR: usize = 0x100;
/// HSPI timing configuration register
pub const TCR: usize = 0x108;
/// HSPI instruction register
pub const IR: usize = 0x110;
/// HSPI alternate bytes register
pub const ABR: usize = 0x118;
/// HSPI low-power timeout register
pub const LPTR: usize = 0x120;
/// HSPI write communication configuration register
pub const WCCR: usize = 0x140;
/// HSPI write timing configuration register
pub const WTCR: usize = 0x148;
/// HSPI write instruction register
pub const WIR: usize = 0x150;
/// HSPI write alternate bytes register
pub const WABR: usize = 0x158;
/// HSPI HyperBus latency configuration register
pub const HLCR: usize = 0x200;

} // verus!
