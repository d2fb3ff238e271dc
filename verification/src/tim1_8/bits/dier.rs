use vstd::prelude::*;

verus! {

/// Update Interrupt Enable
pub const UIE: u32 = 1 << 0;
/// Capture/Compare 1 Interrupt Enable
pub const CC1IE: u32 = 1 << 1;
/// Capture/Compare 2 Interrupt Enable
pub const CC2IE: u32 = 1 << 2;
/// Capture/Compare 3 Interrupt Enable
pub const CC3IE: u32 = 1 << 3;
/// Capture/Compare 4 Interrupt Enable
pub const CC4IE: u32 = 1 << 4;
/// COM Interrupt Enable
pub const COMIE: u32 = 1 << 5;
/// Trigger Interrupt Enable
pub const TIE: u32 = 1 << 6;
/// Break Interrupt Enable
pub const BIE: u32 = 1 << 7;
/// Update DMA Request Enable
pub const UDE: u32 = 1 << 8;
/// Capture/Compare 1 DMA Request Enable
pub const CC1DE: u32 = 1 << 9;
/// Capture/Compare 2 DMA Request Enable
pub const CC2DE: u32 = 1 << 10;
/// Capture/Compare 3 DMA Request Enable
pub const CC3DE: u32 = 1 << 11;
/// Capture/Compare 4 DMA Request Enable
pub const CC4DE: u32 = 1 << 12;
/// COM DMA Request Enable
pub const COMDE: u32 = 1 << 13;
/// Trigger DMA Request Enable
pub const TDE: u32 = 1 << 14;

} // verus!
