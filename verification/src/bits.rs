//! How the masks and shifts of the executable code read as arithmetic.

use vstd::prelude::*;

verus! {

/// The nibble masks and shifts used on a byte.
pub proof fn lemma_nibbles(x: u8, val: u8)
    by (bit_vector)
    ensures
        (x & 0xf0) >> 4 == x / 16,
        x & 0x0f == x % 16,
        x & 0x0f < 16,
        (x & 0x0f) | ((val & 0x0f) << 4) == (val % 16) * 16 + x % 16,
        (x & 0xf0) | (val & 0x0f) == (x / 16) * 16 + val % 16,
{
}

/// The byte masks and shifts used on a 16-bit word.
pub proof fn lemma_bytes(x: u16, val: u8)
    by (bit_vector)
    ensures
        (x & 0xff00) >> 8 == x / 256,
        (x & 0xff00) >> 8 < 256,
        x & 0x00ff == x % 256,
        x & 0x00ff < 256,
        (x & 0x00ff) | ((val as u16) << 8) == (val as u16) * 256 + x % 256,
        (x & 0xff00) | (val as u16) == (x / 256) * 256 + (val as u16),
{
}

/// The sign test on the operands and the result of an addition with a
/// carry coming in: the two operands agree in sign and the result does
/// not.
pub proof fn lemma_add_overflow_bits(a: u8, b: u8, c: u8, r: u8)
    by (bit_vector)
    requires
        c <= 1,
        (a + b + c < 256 && r == a + b + c) || (a + b + c >= 256 && r + 256 == a + b + c),
    ensures
        ((a ^ r) & (b ^ r) & 0x80 != 0) == ((a < 128 && b < 128 && a + b + c >= 128) || (a >= 128
            && b >= 128 && a + b + c < 384)),
{
}

/// The sign test on the operands and the result of a subtraction with a
/// borrow coming in: the two operands differ in sign and the result takes
/// the sign of the second.
pub proof fn lemma_sub_overflow_bits(a: u8, b: u8, c: u8, r: u8)
    by (bit_vector)
    requires
        c <= 1,
        (a >= b + c && r + b + c == a) || (a < b + c && r + b + c == a + 256),
    ensures
        ((a ^ b) & (a ^ r) & 0x80 != 0) == ((a >= 128 && b < 128 && a < 128 + b + c) || (a < 128
            && b >= 128 && a + 128 >= b + c)),
{
}

/// Folding a byte onto its lowest bit by exclusive or leaves the parity
/// of the number of its set bits.
pub proof fn lemma_parity_fold(x: u8)
    by (bit_vector)
    ensures
        ({
            let a = x ^ (x >> 4);
            let b = a ^ (a >> 2);
            let c = b ^ (b >> 1);
            c & 1 == 0
        }) == ((x % 2 + (x / 2) % 2 + (x / 4) % 2 + (x / 8) % 2 + (x / 16) % 2 + (x / 32) % 2 + (x
            / 64) % 2 + (x / 128) % 2) % 2 == 0),
{
}

/// The three fields of an opcode under their masks.
pub proof fn lemma_opcode_fields(op: u8)
    by (bit_vector)
    ensures
        op & 0b11000000 == (op / 64) * 64,
        (op & 0b00111000) >> 3 == (op / 8) % 8,
        op & 0b00000111 == op % 8,
        op & (0b11000000u8 | 0b00000111u8) == (op / 64) * 64 + op % 8,
        op & (0b11000000u8 | 0b00111000u8) == (op / 8) * 8,
{
}

/// The mask of one bit of the low byte of a word: testing, setting and
/// clearing the bit.
pub proof fn lemma_bit_mask(x: u16, m: u16)
    by (bit_vector)
    requires
        m == 1 || m == 2 || m == 4 || m == 8 || m == 16 || m == 32 || m == 64 || m == 128,
    ensures
        (x & m != 0) == ((x / m) % 2 == 1),
        x & m != 0 ==> (x | m) == x && (x & !m) + m == x,
        x & m == 0 ==> (x | m) == x + m && (x & !m) == x,
{
}

/// Setting or clearing the bit under mask `m` decides that bit, leaves the
/// bit under any other mask `n` as it was, and leaves the high byte alone.
pub proof fn lemma_bit_update(x: u16, m: u16, n: u16)
    by (bit_vector)
    requires
        m == 1 || m == 2 || m == 4 || m == 8 || m == 16 || m == 32 || m == 64 || m == 128,
        n == 1 || n == 2 || n == 4 || n == 8 || n == 16 || n == 32 || n == 64 || n == 128,
    ensures
        (((x | m) / n) % 2 == 1) == (n == m || (x / n) % 2 == 1),
        (((x & !m) / n) % 2 == 1) == (n != m && (x / n) % 2 == 1),
        (x | m) / 256 == x / 256,
        (x & !m) / 256 == x / 256,
{
}

/// Of two settings of one bit the later one stands, and settings of two
/// different bits can be made in either order.
pub proof fn lemma_bit_order(x: u16, m: u16, n: u16)
    by (bit_vector)
    requires
        m == 1 || m == 2 || m == 4 || m == 8 || m == 16 || m == 32 || m == 64 || m == 128,
        n == 1 || n == 2 || n == 4 || n == 8 || n == 16 || n == 32 || n == 64 || n == 128,
    ensures
        (x | m) | m == x | m,
        (x & !m) | m == x | m,
        (x | m) & !m == x & !m,
        (x & !m) & !m == x & !m,
        m != n ==> (x | m) | n == (x | n) | m,
        m != n ==> (x | m) & !n == (x & !n) | m,
        m != n ==> (x & !m) & !n == (x & !n) & !m,
{
}

} // verus!
