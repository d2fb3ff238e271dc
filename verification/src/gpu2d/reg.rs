use vstd::prelude::*;

verus! {

/// DMA2D Control Register
pub const CR: usize = 0x00;
/// DMA2D Interrupt Status Register
pub const ISR: usize = 0x04;
/// DMA2D Interrupt Flag Clear Register
pub const IFCR: usize = 0x08;
/// DMA2D Foreground Memory Address Register
pub const FGMAR: usize = 0x0C;
/// DMA2D Foreground Offset Register
pub const FGOR: usize = 0x10;
/// DMA2D Background Memory Address Register
pub const BGMAR: usize = 0x14;
/// DMA2D Background Offset Register
pub const BGOR: usize = 0x18;
/// DMA2D Foreground PFC Control Register
pub const FGPFCCR: usize = 0x1C;
/// DMA2D Foreground Color Register
pub const FGCOLOR: usize = 0x20;
/// DMA2D Background PFC Control Register
pub const BGPFCCR: usize = 0x24;
/// DMA2D Background Color Register
pub const BGCOLOR: usize = 0x28;
/// DMA2D Foreground CLUT Memory Address Register
pub const FGCMAR: usize = 0x2C;
/// DMA2D Background CLUT Memory Address Register
pub const BGCMAR: usize = 0x30;
/// DMA2D Output Memory Address Register
pub const OMAR: usize = 0x34;
/// DMA2D Output Offset Register
pub const OOR: usize = 0x38;
/// DMA2D Number of Line Register
pub const NLR: usize = 0x3C;
/// DMA2D Line Watermark Register
pub const LWR: usize = 0x40;
/// DMA2D Output PFC Control Register
pub const OPFCCR: usize = 0x44;
/// DMA2D Output Color Register
pub const OCOLR: usize = 0x48;
/// DMA2D Line Status Register
pub const LSR: usize = 0x4C;
/// DMA2D AHB Master Timer Configuration Register
pub const AMTCR: usize = 0x50;

} // verus!
