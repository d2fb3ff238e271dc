use vstd::prelude::*;

verus! {

/// Rising trigger selection register
pub const RTSR1: usize = 0x00;
/// Falling trigger selection register
pub const FTSR1: usize = 0x04;
/// Software interrupt event register
pub const SWIER1: usize = 0x08;
/// Rising edge pending register
pub const RPR1: usize = 0x0C;
/// Falling edge pending register
pub const FPR1: usize = 0x10;
/// Security rising edge pending register
pub const SR1PR: usize = 0x14;
/// External interrupt configuration register 1
pub const EXTICR1: usize = 0x60;
/// External interrupt configuration register 2
pub const EXTICR2: usize = 0x64;
/// External interrupt configuration register 3
pub const EXTICR3: usize = 0x68;
/// External interrupt configuration register 4
pub const EXTICR4: usize = 0x6C;
/// Interrupt mask register 1
pub const IMR1: usize = 0x80;
/// Event mask register 1
pub const EMR1: usize = 0x84;
/// Interrupt mask register 2
pub const IMR2: usize = 0x90;
/// Event mask register 2
pub const EMR2: usize = 0x94;
/// Interrupt mask register 3
pub const IMR3: usize = 0xA0;
/// Event mask register 3
pub const EMR3: usize = 0xA4;

} // verus!
