use vstd::prelude::*;

verus! {

/// LPTIM interrupt and status register
pub const ISR: usize = 0x00;
/// LPTIM interrupt clear register
pub const ICR: usize = 0x04;
/// LPTIM interrupt enable register
pub const IER: usize = 0x08;
/// LPTIM configuration register
pub const CFGR: usize = 0x0C;
/// LPTIM control register
pub const CR: usize = 0x10;
/// LPTIM compare register
pub const CMP: usize = 0x14;
/// LPTIM auto-reload register
pub const ARR: usize = 0x18;
/// LPTIM counter register
pub const CNT: usize = 0x1C;
/// LPTIM option register
pub const OR: usize = 0x20;
/// LPTIM repetition counter register
pub const RCR: usize = 0x24;
/// LPTIM capture/compare mode register 1
pub const CCMR1: usize = 0x28;
/// LPTIM capture/compare register 1
pub const CCR1: usize = 0x2C;

} // verus!
