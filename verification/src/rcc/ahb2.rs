use vstd::prelude::*;

verus! {

/// GPIO port A
pub const GPIOA: u32 = 1 << 0;
/// GPIO port B
pub const GPIOB: u32 = 1 << 1;
/// GPIO port C
pub const GPIOC: u32 = 1 << 2;
/// GPIO port D
pub const GPIOD: u32 = 1 << 3;
/// GPIO port E
pub const GPIOE: u32 = 1 << 4;
/// GPIO port F
pub const GPIOF: u32 = 1 << 5;
/// GPIO port G
pub const GPIOG: u32 = 1 << 6;
/// GPIO port H
pub const GPIOH: u32 = 1 << 7;
/// GPIO port I
pub const GPIOI: u32 = 1 << 8;
/// ADC1 and ADC2
pub const ADC12: u32 = 1 << 10;
/// ADC3
pub const ADC3: u32 = 1 << 11;
/// DAC1
pub const DAC1: u32 = 1 << 12;
/// FDCAN1
pub const FDCAN1: u32 = 1 << 14;
/// FDCAN2
pub const FDCAN2: u32 = 1 << 15;
/// USB OTG FS
pub const USB_OTG_FS: u32 = 1 << 21;
/// AES
pub const AES: u32 = 1 << 4;
/// HASH
pub const HASH: u32 = 1 << 5;
/// RNG
pub const RNG: u32 = 1 << 6;
/// PKA
pub const PKA: u32 = 1 << 8;

} // verus!
