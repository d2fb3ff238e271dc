use vstd::prelude::*;

verus! {

/// Clock prescaler
pub const PRESCALER: u32 = 0xFF << 0;
/// Transfer counter
pub const TC: u32 = 0xFFFF << 16;

} // verus!
