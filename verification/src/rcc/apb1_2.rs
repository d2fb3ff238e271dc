use vstd::prelude::*;

verus! {

/// Low power timer 2
pub const LPTIM2: u32 = 1 << 5;
/// Low power timer 3
pub const LPTIM3: u32 = 1 << 6;
/// I2C 4
pub const I2C4: u32 = 1 << 7;
/// LPUART 1
pub const LPUART1: u32 = 1 << 8;

} // verus!
