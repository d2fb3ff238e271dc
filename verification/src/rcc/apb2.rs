use vstd::prelude::*;

verus! {

/// Timer 1
pub const TIM1: u32 = 1 << 11;
/// Timer 8
pub const TIM8: u32 = 1 << 13;
/// SPI 1
pub const SPI1: u32 = 1 << 12;
/// Timer 15
pub const TIM15: u32 = 1 << 16;
/// Timer 16
pub const TIM16: u32 = 1 << 17;
/// Timer 17
pub const TIM17: u32 = 1 << 18;
/// USART 1
pub const USART1: u32 = 1 << 14;
/// USART 6
pub const USART6: u32 = 1 << 5;
/// UART 7
pub const UART7: u32 = 1 << 6;
/// UART 8
pub const UART8: u32 = 1 << 7;
/// UART 9
pub const UART9: u32 = 1 << 6;
/// USART 10
pub const USART10: u32 = 1 << 7;
/// SAI 1
pub const SAI1: u32 = 1 << 21;
/// SAI 2
pub const SAI2: u32 = 1 << 22;
/// HRTIM
pub const HRTIM: u32 = 1 << 26;

} // verus!
