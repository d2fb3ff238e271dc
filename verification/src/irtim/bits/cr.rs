use vstd::prelude::*;

verus! {

/// Counter Enable
pub const CEN: u32 = 1 << 0;
/// Update Disable
pub const UDIS: u32 = 1 << 1;
/// Update Request Source
pub const URS: u32 = 1 << 2;
/// One Pulse Mode
pub const OPM: u32 = 1 << 3;
/// Direction
pub const DIR: u32 = 1 << 4;
/// Center-aligned Mode
pub const CMS: u32 = 0b11 << 5;
/// Auto-reload Preload Enable
pub const ARPE: u32 = 1 << 7;
/// Clock Division
pub const CKD: u32 = 0b11 << 8;
/// UIF status bit remapping
pub const UIFREMAP: u32 = 1 << 11;

} // verus!
