use vstd::prelude::*;

verus! {

/// Capture enable
pub const CAPTURE: u32 = 1 << 0;
/// Capture mode
pub const CM: u32 = 1 << 1;
/// Crop enable
pub const CROP: u32 = 1 << 2;
/// JPEG format
pub const JPEG: u32 = 1 << 3;
/// Embedded synchronization mode
pub const ESM: u32 = 1 << 4;
/// Pixel clock polarity
pub const PCKPOL: u32 = 1 << 5;
/// Horizontal synchronization polarity
pub const HSPOL: u32 = 1 << 6;
/// Vertical synchronization polarity
pub const VSPOL: u32 = 1 << 7;
/// Frame capture rate
pub const FCRC: u32 = 0b11 << 8;
/// Extended data mode
pub const EDM: u32 = 0b11 << 10;
/// DCMI enable
pub const ENABLE: u32 = 1 << 14;

} // verus!
