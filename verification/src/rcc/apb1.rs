use vstd::prelude::*;

verus! {

/// Timer 2
pub const TIM2: u32 = 1 << 0;
/// Timer 3
pub const TIM3: u32 = 1 << 1;
/// Timer 4
pub const TIM4: u32 = 1 << 2;
/// Timer 5
pub const TIM5: u32 = 1 << 3;
/// Timer 6
pub const TIM6: u32 = 1 << 4;
/// Timer 7
pub const TIM7: u32 = 1 << 5;
/// Window watchdog
pub const WWDG: u32 = 1 << 11;
/// SPI 2
pub const SPI2: u32 = 1 << 14;
/// SPI 3
pub const SPI3: u32 = 1 << 15;
/// USART 2
pub const USART2: u32 = 1 << 17;
/// USART 3
pub const USART3: u32 = 1 << 18;
/// UART 4
pub const UART4: u32 = 1 << 19;
/// UART 5
pub const UART5: u32 = 1 << 20;
/// I2C 1
pub const I2C1: u32 = 1 << 21;
/// I2C 2
pub const I2C2: u32 = 1 << 22;
/// I2C 3
pub const I2C3: u32 = 1 << 23;
/// CRS
pub const CRS: u32 = 1 << 24;
/// Power control
pub const PWR: u32 = 1 << 28;
/// DAC1
pub const DAC1: u32 = 1 << 29;
/// OPAMP
pub const OPAMP: u32 = 1 << 30;
/// Low power timer 1
pub const LPTIM1: u32 = 1 << 31;

} // verus!
