use vstd::prelude::*;

verus! {

/// Control register
pub const CR: usize = 0x00;
/// Status register
pub const SR: usize = 0x04;
/// Data register
pub const DR: usize = 0x08;
/// Health test control register
pub const HTCR: usize = 0x0C;

} // verus!
