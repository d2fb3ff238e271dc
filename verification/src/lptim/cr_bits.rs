use vstd::prelude::*;

verus! {

/// LPTIM enable
pub const ENABLE: u32 = 1 << 0;
/// Single shot start
pub const SNGSTRT: u32 = 1 << 1;
/// Continuous start
pub const CNTSTRT: u32 = 1 << 2;

} // verus!
