use vstd::prelude::*;

verus! {

/// TAMP control register 1
pub const CR1: usize = 0x00;
/// TAMP control register 2
pub const CR2: usize = 0x04;
/// TAMP filter control register
pub const FLTCR: usize = 0x08;
/// TAMP active tamper control register
pub const ATCR1: usize = 0x0C;
/// TAMP active tamper seed register
pub const ATSEEDR: usize = 0x10;
/// TAMP active tamper seed register MSB
pub const ATOR: usize = 0x14;
/// TAMP status register
pub const SR: usize = 0x20;
/// TAMP masked interrupt status register
pub const MISR: usize = 0x24;
/// TAMP status clear register
pub const SCR: usize = 0x2C;
/// TAMP monotonic counter register 1
pub const COUNTR1: usize = 0x30;
/// TAMP monotonic counter register 2
pub const COUNTR2: usize = 0x34;
/// TAMP backup register x
pub const BKP0R: usize = 0x100;
pub const BKP1R: usize = 0x104;
pub const BKP2R: usize = 0x108;
pub const BKP3R: usize = 0x10C;
pub const BKP4R: usize = 0x110;
pub const BKP5R: usize = 0x114;
pub const BKP6R: usize = 0x118;
pub const BKP7R: usize = 0x11C;
pub const BKP8R: usize = 0x120;
pub const BKP9R: usize = 0x124;
pub const BKP10R: usize = 0x128;
pub const BKP11R: usize = 0x12C;
pub const BKP12R: usize = 0x130;
pub const BKP13R: usize = 0x134;
pub const BKP14R: usize = 0x138;
pub const BKP15R: usize = 0x13C;
pub const BKP16R: usize = 0x140;
pub const BKP17R: usize = 0x144;
pub const BKP18R: usize = 0x148;
pub const BKP19R: usize = 0x14C;
pub const BKP20R: usize = 0x150;
pub const BKP21R: usize = 0x154;
pub const BKP22R: usize = 0x158;
pub const BKP23R: usize = 0x15C;
pub const BKP24R: usize = 0x160;
pub const BKP25R: usize = 0x164;
pub const BKP26R: usize = 0x168;
pub const BKP27R: usize = 0x16C;
pub const BKP28R: usize = 0x170;
pub const BKP29R: usize = 0x174;
pub const BKP30R: usize = 0x178;
pub const BKP31R: usize = 0x17C;

} // verus!
