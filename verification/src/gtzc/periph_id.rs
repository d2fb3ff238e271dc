use vstd::prelude::*;

verus! {

pub const WWDG: u8 = 0;
pub const IWDG: u8 = 1;
pub const RTC: u8 = 2;
pub const RCC: u8 = 3;
pub const PWR: u8 = 4;
pub const EXTI: u8 = 5;
pub const COMP: u8 = 6;
pub const ADC1: u8 = 7;
pub const ADC2: u8 = 8;
pub const DAC1: u8 = 9;
pub const DAC2: u8 = 10;
pub const VREFBUF: u8 = 11;
pub const TIM1: u8 = 12;
pub const TIM2: u8 = 13;
pub const TIM3: u8 = 14;
pub const TIM4: u8 = 15;
pub const TIM5: u8 = 16;
pub const TIM6: u8 = 17;
pub const TIM7: u8 = 18;
pub const TIM8: u8 = 19;
pub const TIM15: u8 = 20;
pub const TIM16: u8 = 21;
pub const TIM17: u8 = 22;
pub const SPI1: u8 = 23;
pub const SPI2: u8 = 24;
pub const SPI3: u8 = 25;
pub const I2C1: u8 = 26;
pub const I2C2: u8 = 27;
pub const I2C3: u8 = 28;
pub const USART1: u8 = 29;
pub const USART2: u8 = 30;
pub const USART3: u8 = 31;

} // verus!
