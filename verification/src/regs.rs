//! Bit-level model of 32-bit peripheral registers.
//!
//! Every driver in this crate computes register values: it reads a register,
//! changes one bit or one field, and hands back the word to write. The spec
//! functions here name those operations, and the lemmas state the laws that
//! all read-modify-write updates obey.
use vstd::prelude::*;

verus! {

/// A word to store into the register at `offset` from a peripheral's base
/// address.
#[derive(Clone, Copy, Debug, PartialEq, Eq, Structural)]
pub struct RegisterWrite {
    /// Offset of the register from the peripheral's base address.
    pub offset: usize,
    /// Value to store.
    pub value: u32,
}

/// One step of a register sequence, at an absolute address: a store, a
/// read-modify-write of one field, a wait until a field reads a value, or
/// a pause of a number of idle cycles.
#[derive(Clone, Copy, Debug, PartialEq, Eq, Structural)]
pub enum Step {
    /// Store `value` at `addr`.
    Write { addr: usize, value: u32 },
    /// Read `addr` and store it back with the field of `width` bits at `pos`
    /// set to `value`.
    SetField { addr: usize, pos: u32, width: u32, value: u32 },
    /// Read `addr` until the field of `width` bits at `pos` reads `value`.
    WaitField { addr: usize, pos: u32, width: u32, value: u32 },
    /// Stay idle for `cycles` cycles.
    Pause { cycles: u32 },
}

impl Step {
    /// The field of a `SetField` or `WaitField` step lies inside the word.
    pub open spec fn well_formed(self) -> bool {
        match self {
            Step::SetField { pos, width, .. } => 0 < width < 32 && pos + width <= 32,
            Step::WaitField { pos, width, .. } => 0 < width < 32 && pos + width <= 32,
            _ => true,
        }
    }

    /// Whether the field of the step lies inside the word.
    pub fn is_well_formed(&self) -> (r: bool)
        ensures
            r == self.well_formed(),
    {
        match *self {
            Step::SetField { pos, width, .. } => 0 < width && width < 32 && pos <= 32 - width,
            Step::WaitField { pos, width, .. } => 0 < width && width < 32 && pos <= 32 - width,
            _ => true,
        }
    }

    /// The value a `Write` or `SetField` step stores, given the register's
    /// current value; the other steps store nothing and give `current` back.
    pub open spec fn stored(self, current: u32) -> u32 {
        match self {
            Step::Write { value, .. } => value,
            Step::SetField { pos, width, value, .. } => with_field(current, pos, width, value),
            _ => current,
        }
    }

    /// The value the step stores, given the register's current value.
    pub fn store(&self, current: u32) -> (r: u32)
        requires
            self.well_formed(),
        ensures
            r == self.stored(current),
    {
        match *self {
            Step::Write { value, .. } => value,
            Step::SetField { pos, width, value, .. } => set_field(current, pos, width, value),
            _ => current,
        }
    }

    /// Whether a `WaitField` step is over once the register reads `current`;
    /// the other steps do not wait.
    pub open spec fn satisfied(self, current: u32) -> bool {
        match self {
            Step::WaitField { pos, width, value, .. } => field(current, pos, width) == value,
            _ => true,
        }
    }

    /// Whether the step is over once the register reads `current`.
    pub fn is_satisfied(&self, current: u32) -> (r: bool)
        requires
            self.well_formed(),
        ensures
            r == self.satisfied(current),
    {
        match *self {
            Step::WaitField { pos, width, value, .. } => get_field(current, pos, width) == value,
            _ => true,
        }
    }
}

/// Bit `i` of `v`.
pub open spec fn bit(v: u32, i: u32) -> bool {
    (v >> i) & 1u32 == 1u32
}

/// A mask of the `width` low bits.
pub open spec fn low_mask(width: u32) -> u32 {
    if width >= 32 {
        0xffff_ffffu32
    } else {
        ((1u32 << width) - 1u32) as u32
    }
}

/// The `width`-bit field of `v` that starts at bit `pos`.
pub open spec fn field(v: u32, pos: u32, width: u32) -> u32 {
    (v >> pos) & low_mask(width)
}

/// `v` with bit `i` set (`b`) or cleared (`!b`).
pub open spec fn with_bit(v: u32, i: u32, b: bool) -> u32 {
    if b {
        v | (1u32 << i)
    } else {
        v & !(1u32 << i)
    }
}

/// `v` with the `width`-bit field at `pos` cleared and `x` placed there.
pub open spec fn with_field(v: u32, pos: u32, width: u32, x: u32) -> u32 {
    (v & !(low_mask(width) << pos)) | (x << pos)
}

/// Whether `x` fits in a field of `width` bits.
pub open spec fn fits(x: u32, width: u32) -> bool {
    x <= low_mask(width)
}

/// `1` for `true`, `0` for `false`, as a register bit.
pub open spec fn flag(b: bool) -> u32 {
    if b {
        1
    } else {
        0
    }
}

/// Values of `low_mask` for every width below 32.
pub open spec fn low_mask_table(width: u32) -> u32 {
    if width == 0 {
        0u32
    } else if width == 1 {
        1u32
    } else if width == 2 {
        0x3u32
    } else if width == 3 {
        0x7u32
    } else if width == 4 {
        0xfu32
    } else if width == 5 {
        0x1fu32
    } else if width == 6 {
        0x3fu32
    } else if width == 7 {
        0x7fu32
    } else if width == 8 {
        0xffu32
    } else if width == 9 {
        0x1ffu32
    } else if width == 10 {
        0x3ffu32
    } else if width == 11 {
        0x7ffu32
    } else if width == 12 {
        0xfffu32
    } else if width == 13 {
        0x1fffu32
    } else if width == 14 {
        0x3fffu32
    } else if width == 15 {
        0x7fffu32
    } else if width == 16 {
        0xffffu32
    } else if width == 17 {
        0x1ffffu32
    } else if width == 18 {
        0x3ffffu32
    } else if width == 19 {
        0x7ffffu32
    } else if width == 20 {
        0xfffffu32
    } else if width == 21 {
        0x1fffffu32
    } else if width == 22 {
        0x3fffffu32
    } else if width == 23 {
        0x7fffffu32
    } else if width == 24 {
        0xffffffu32
    } else if width == 25 {
        0x1ffffffu32
    } else if width == 26 {
        0x3ffffffu32
    } else if width == 27 {
        0x7ffffffu32
    } else if width == 28 {
        0xfffffffu32
    } else if width == 29 {
        0x1fffffffu32
    } else if width == 30 {
        0x3fffffffu32
    } else if width == 31 {
        0x7fffffffu32
    } else {
        0xffff_ffffu32
    }
}

/// `low_mask` agrees with its table, so that the solver sees the numeric
/// value of every mask.
pub broadcast proof fn lemma_low_mask_value(width: u32)
    ensures
        #[trigger] low_mask(width) == low_mask_table(width),
{
    if width < 32 {
        assert(((1u32 << width) - 1u32) as u32 == low_mask_table(width)) by (bit_vector)
            requires
                width < 32,
        ;
    }
}

/// Setting or clearing a bit changes that bit and no other.
pub proof fn lemma_with_bit(v: u32, i: u32, b: bool)
    requires
        i < 32,
    ensures
        bit(with_bit(v, i, b), i) == b,
        forall|j: u32| j < 32 && j != i ==> bit(#[trigger] with_bit(v, i, b), j) == bit(v, j),
{
    if b {
        assert(bit(v | (1u32 << i), i)) by (bit_vector)
            requires
                i < 32,
        ;
        assert(forall|j: u32|
            j < 32 && j != i ==> bit(v | (1u32 << i), j) == bit(v, j)) by (bit_vector)
            requires
                i < 32,
        ;
    } else {
        assert(!bit(v & !(1u32 << i), i)) by (bit_vector)
            requires
                i < 32,
        ;
        assert(forall|j: u32|
            j < 32 && j != i ==> bit(v & !(1u32 << i), j) == bit(v, j)) by (bit_vector)
            requires
                i < 32,
        ;
    }
}

/// Writing a field that fits reads back the value written, and leaves every
/// bit outside the field as it was.
pub proof fn lemma_with_field(v: u32, pos: u32, width: u32, x: u32)
    requires
        0 < width,
        pos + width <= 32,
        fits(x, width),
    ensures
        field(with_field(v, pos, width, x), pos, width) == x,
        forall|j: u32|
            j < 32 && !(pos <= j < pos + width) ==> bit(#[trigger] with_field(v, pos, width, x), j)
                == bit(v, j),
{
    let m = low_mask(width);
    if width >= 32 {
        assert(pos == 0);
        assert(m == 0xffff_ffffu32);
        assert((((v & !(m << pos)) | (x << pos)) >> pos) & m == x) by (bit_vector)
            requires
                pos == 0,
                m == 0xffff_ffffu32,
        ;
    } else {
        assert(m == ((1u32 << width) - 1u32) as u32);
        assert((((v & !(m << pos)) | (x << pos)) >> pos) & m == x) by (bit_vector)
            requires
                0 < width < 32,
                pos + width <= 32,
                m == ((1u32 << width) - 1u32) as u32,
                x <= m,
        ;
        assert(forall|j: u32|
            j < 32 && !(pos <= j < pos + width) ==> bit((v & !(m << pos)) | (x << pos), j) == bit(
                v,
                j,
            )) by (bit_vector)
            requires
                0 < width < 32,
                pos + width <= 32,
                m == ((1u32 << width) - 1u32) as u32,
                x <= m,
        ;
    }
}

/// A later write of the same field overrides an earlier one.
pub proof fn lemma_with_field_twice(v: u32, pos: u32, width: u32, x: u32, y: u32)
    requires
        0 < width,
        pos + width <= 32,
        fits(x, width),
        fits(y, width),
    ensures
        with_field(with_field(v, pos, width, x), pos, width, y) == with_field(v, pos, width, y),
{
    let m = low_mask(width);
    if width >= 32 {
        assert((((v & !(m << pos)) | (x << pos)) & !(m << pos)) | (y << pos) == (v & !(m << pos))
            | (y << pos)) by (bit_vector)
            requires
                pos == 0,
                m == 0xffff_ffffu32,
        ;
    } else {
        assert((((v & !(m << pos)) | (x << pos)) & !(m << pos)) | (y << pos) == (v & !(m << pos))
            | (y << pos)) by (bit_vector)
            requires
                0 < width < 32,
                pos + width <= 32,
                m == ((1u32 << width) - 1u32) as u32,
                x <= m,
        ;
    }
}

/// A later write of the same bit overrides an earlier one: enabling then
/// disabling (or the reverse) is the same as the last write alone.
pub proof fn lemma_with_bit_twice(v: u32, i: u32, a: bool, b: bool)
    requires
        i < 32,
    ensures
        with_bit(with_bit(v, i, a), i, b) == with_bit(v, i, b),
{
    assert(((v | (1u32 << i)) | (1u32 << i)) == (v | (1u32 << i)) && ((v & !(1u32 << i)) | (1u32 << i)) == (v | (1u32
        << i)) && ((v | (1u32 << i)) & !(1u32 << i)) == (v & !(1u32 << i)) && ((v & !(1u32 << i)) & !(1u32 << i)) == (v
        & !(1u32 << i))) by (bit_vector)
        requires
            i < 32,
    ;
}

/// `1` for `true`, `0` for `false`.
pub fn flag_bits(b: bool) -> (r: u32)
    ensures
        r == flag(b),
        r <= 1,
{
    if b {
        1
    } else {
        0
    }
}

/// Or-ing in zero, and shifting zero, change nothing.
pub proof fn lemma_zero_bits(x: u32, k: u32)
    ensures
        x | 0u32 == x,
        0u32 | x == x,
        0u32 << k == 0u32,
{
    assert(x | 0u32 == x && 0u32 | x == x && 0u32 << k == 0u32) by (bit_vector);
}

/// Shifting by zero changes nothing.
pub proof fn lemma_shift_zero(x: u32)
    ensures
        x >> 0u32 == x,
        x << 0u32 == x,
{
    assert(x >> 0u32 == x && x << 0u32 == x) by (bit_vector);
}

/// A 16-bit value as a 32-bit register word.
pub open spec fn wide(x: u16) -> u32 {
    x as u32
}

/// A 16-bit value as a 32-bit register word.
pub fn widen(x: u16) -> (r: u32)
    ensures
        r == wide(x),
        r == x,
{
    x as u32
}

/// Sets bit `i` of `v`.
pub fn set_bit(v: u32, i: u32) -> (r: u32)
    requires
        i < 32,
    ensures
        r == with_bit(v, i, true),
{
    v | (1u32 << i)
}

/// Clears bit `i` of `v`.
pub fn clear_bit(v: u32, i: u32) -> (r: u32)
    requires
        i < 32,
    ensures
        r == with_bit(v, i, false),
{
    v & !(1u32 << i)
}

/// Whether bit `i` of `v` is set.
pub fn test_bit(v: u32, i: u32) -> (r: bool)
    requires
        i < 32,
    ensures
        r == bit(v, i),
{
    let b = v & (1u32 << i) != 0;
    assert(b == bit(v, i)) by (bit_vector)
        requires
            i < 32,
            b == (v & (1u32 << i) != 0),
    ;
    b
}

/// Replaces the `width`-bit field of `v` at `pos` with `x`.
pub fn set_field(v: u32, pos: u32, width: u32, x: u32) -> (r: u32)
    requires
        0 < width < 32,
        pos + width <= 32,
    ensures
        r == with_field(v, pos, width, x),
{
    assert(1u32 << width >= 1u32) by (bit_vector)
        requires
            width < 32,
    ;
    let m: u32 = (1u32 << width) - 1;
    (v & !(m << pos)) | (x << pos)
}

/// The `width`-bit field of `v` at `pos`.
pub fn get_field(v: u32, pos: u32, width: u32) -> (r: u32)
    requires
        0 < width < 32,
        pos < 32,
    ensures
        r == field(v, pos, width),
        r <= low_mask(width),
{
    assert(1u32 << width >= 1u32) by (bit_vector)
        requires
            width < 32,
    ;
    let m: u32 = (1u32 << width) - 1;
    let r = (v >> pos) & m;
    assert(r <= m) by (bit_vector)
        requires
            r == (v >> pos) & m,
    ;
    r
}

} // verus!
