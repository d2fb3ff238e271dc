use vstd::prelude::*;

verus! {

/// Control Register (IRTIM_CR)
pub const CR: usize = 0x00;
/// Status Register (IRTIM_SR)
pub const SR: usize = 0x04;
/// Interrupt Enable Register (IRTIM_IER)
pub const IER: usize = 0x08;
/// Interrupt Clear Register (IRTIM_ICR)
pub const ICR: usize = 0x0C;
/// Prescaler Register (IRTIM_PSC)
pub const PSC: usize = 0x10;
/// Auto-reload Register (IRTIM_ARR)
pub const ARR: usize = 0x14;
/// Compare Register 1 (IRTIM_CCR1)
pub const CCR1: usize = 0x18;
/// Compare Register 2 (IRTIM_CCR2)
pub const CCR2: usize = 0x1C;
/// Compare Register 3 (IRTIM_CCR3)
pub const CCR3: usize = 0x20;
/// Compare Register 4 (IRTIM_CCR4)
pub const CCR4: usize = 0x24;
/// Dead-time Register (IRTIM_DTR)
pub const DTR: usize = 0x28;
/// Repetition Counter Register (IRTIM_RCR)
pub const RCR: usize = 0x2C;
/// Break and Dead-time Register (IRTIM_BDTR)
pub const BDTR: usize = 0x30;
/// DMA Control Register (IRTIM_DCR)
pub const DCR: usize = 0x34;
/// DMA Address Register (IRTIM_DMAR)
pub const DMAR: usize = 0x38;
/// Option Register 1 (IRTIM_OR1)
pub const OR1: usize = 0x3C;
/// Option Register 2 (IRTIM_OR2)
pub const OR2: usize = 0x40;

} // verus!
