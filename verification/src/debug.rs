//! Text that the debug console prints.
use vstd::prelude::*;
use vstd::string::StringSliceAdditionalSpecFns;
use crate::regs::{self, get_field};

verus! {

broadcast use regs::lemma_low_mask_value;

/// Upper-case ASCII hexadecimal digit of a nibble.
pub open spec fn hex_digit(n: u32) -> u8 {
    if n < 10 {
        (48 + n) as u8
    } else {
        (55 + n) as u8
    }
}

/// Value of an upper-case ASCII hexadecimal digit.
pub open spec fn hex_value(c: u8) -> u32 {
    if c <= 57 {
        (c - 48) as u32
    } else {
        (c - 55) as u32
    }
}

/// The text of `print_hex`: "0x" and the eight nibbles of `value`, most
/// significant first.
pub open spec fn hex_text(value: u32) -> Seq<u8> {
    seq![48u8, 120u8] + Seq::new(8, |k: int| hex_digit(regs::field(value, (4 * (7 - k)) as u32, 4)))
}

/// The bytes that `print_hex` sends: `value` as "0x" and eight upper-case
/// hexadecimal digits.
pub fn print_hex(value: u32) -> (r: Vec<u8>)
    ensures
        r@ == hex_text(value),
{
    let mut r: Vec<u8> = Vec::new();
    r.push(48u8);
    r.push(120u8);
    let mut i: u32 = 8;
    while i > 0
        invariant
            i <= 8,
            r@.len() == 2 + (8 - i),
            r@[0] == 48u8,
            r@[1] == 120u8,
            forall|k: int| 0 <= k < 8 - i ==> #[trigger] r@[2 + k] == hex_digit(regs::field(value, (4 * (7 - k)) as u32, 4)),
        decreases i,
    {
        i = i - 1;
        let nibble = get_field(value, i * 4, 4);
        let c: u8 = if nibble < 10 {
            48u8 + nibble as u8
        } else {
            65u8 + (nibble - 10) as u8
        };
        r.push(c);
    }
    assert forall|k: int| 0 <= k < 10 implies #[trigger] r@[k] == hex_text(value)[k] by {
        if k >= 2 {
            assert(r@[2 + (k - 2)] == hex_digit(regs::field(value, (4 * (7 - (k - 2))) as u32, 4)));
        }
    }
    assert(r@ =~= hex_text(value));
    r
}

/// The digits of `print_hex` give back the value: read as hexadecimal and
/// put together, most significant first, they make `value` again.
pub proof fn lemma_print_hex_roundtrip(value: u32)
    ensures
        ({
            let t = hex_text(value);
            (hex_value(t[2]) << 28u32) | (hex_value(t[3]) << 24u32) | (hex_value(t[4]) << 20u32) | (hex_value(t[5])
                << 16u32) | (hex_value(t[6]) << 12u32) | (hex_value(t[7]) << 8u32) | (hex_value(t[8]) << 4u32) | hex_value(
                t[9],
            ) == value
        }),
{
    let f7 = regs::field(value, 28, 4);
    let f6 = regs::field(value, 24, 4);
    let f5 = regs::field(value, 20, 4);
    let f4 = regs::field(value, 16, 4);
    let f3 = regs::field(value, 12, 4);
    let f2 = regs::field(value, 8, 4);
    let f1 = regs::field(value, 4, 4);
    let f0 = regs::field(value, 0, 4);
    assert(f7 == (value >> 28u32) & 0xfu32 && f6 == (value >> 24u32) & 0xfu32 && f5 == (value >> 20u32) & 0xfu32 && f4
        == (value >> 16u32) & 0xfu32 && f3 == (value >> 12u32) & 0xfu32 && f2 == (value >> 8u32) & 0xfu32 && f1 == (value
        >> 4u32) & 0xfu32 && f0 == (value >> 0u32) & 0xfu32);
    assert(f7 <= 15 && f6 <= 15 && f5 <= 15 && f4 <= 15 && f3 <= 15 && f2 <= 15 && f1 <= 15 && f0 <= 15 && (f7 << 28u32)
        | (f6 << 24u32) | (f5 << 20u32) | (f4 << 16u32) | (f3 << 12u32) | (f2 << 8u32) | (f1 << 4u32) | f0 == value)
        by (bit_vector)
        requires
            f7 == (value >> 28u32) & 0xfu32,
            f6 == (value >> 24u32) & 0xfu32,
            f5 == (value >> 20u32) & 0xfu32,
            f4 == (value >> 16u32) & 0xfu32,
            f3 == (value >> 12u32) & 0xfu32,
            f2 == (value >> 8u32) & 0xfu32,
            f1 == (value >> 4u32) & 0xfu32,
            f0 == (value >> 0u32) & 0xfu32,
    ;
    let t = hex_text(value);
    assert(t[2] == hex_digit(f7));
    assert(t[3] == hex_digit(f6));
    assert(t[4] == hex_digit(f5));
    assert(t[5] == hex_digit(f4));
    assert(t[6] == hex_digit(f3));
    assert(t[7] == hex_digit(f2));
    assert(t[8] == hex_digit(f1));
    assert(t[9] == hex_digit(f0));
}

/// The bytes that `println` sends: those of `s`, then "\r\n".
pub fn println(s: &str) -> (r: Vec<u8>)
    ensures
        r@ == s.spec_bytes() + seq![13u8, 10u8],
{
    let bytes = s.as_bytes();
    let mut r: Vec<u8> = Vec::new();
    let mut i: usize = 0;
    while i < bytes.len()
        invariant
            bytes@ == s.spec_bytes(),
            i <= bytes@.len(),
            r@ == bytes@.subrange(0, i as int),
        decreases bytes@.len() - i,
    {
        r.push(bytes[i]);
        i = i + 1;
        assert(r@ =~= bytes@.subrange(0, i as int));
    }
    r.push(13u8);
    r.push(10u8);
    assert(r@ =~= s.spec_bytes() + seq![13u8, 10u8]);
    r
}

} // verus!
