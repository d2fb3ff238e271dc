//! Integer arithmetic shared by the drivers.
use vstd::prelude::*;

verus! {

/// Absolute value.
pub open spec fn abs(a: int) -> int {
    if a < 0 {
        -a
    } else {
        a
    }
}

/// Integer division rounding toward zero, as Rust's `/` does on signed
/// integers.
pub open spec fn trunc_div(a: int, b: int) -> int {
    if (a < 0) == (b < 0) {
        abs(a) / abs(b)
    } else {
        -(abs(a) / abs(b))
    }
}

/// `a / b` on `i32`, rounding toward zero.
pub fn div_toward_zero(a: i32, b: i32) -> (r: i32)
    requires
        b != 0,
        a != i32::MIN,
        b != i32::MIN,
    ensures
        r == trunc_div(a as int, b as int),
        -abs(a as int) <= r <= abs(a as int),
{
    let ua: u32 = if a < 0 { (-a) as u32 } else { a as u32 };
    let ub: u32 = if b < 0 { (-b) as u32 } else { b as u32 };
    let q: u32 = ua / ub;
    assert(q <= ua) by (nonlinear_arith)
        requires
            ub >= 1,
            q == ua / ub,
    ;
    if (a < 0) == (b < 0) {
        q as i32
    } else {
        -(q as i32)
    }
}

} // verus!
