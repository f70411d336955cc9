//! Helpers for taking CHIP-8 opcodes apart.
//!
//! An opcode is a 16-bit word fetched as two consecutive memory bytes; its
//! four 4-bit nibbles select the operation and carry its operands.

use vstd::prelude::*;

verus! {

/// The high nibble of a byte: `0xAB` gives `0x0A`.
pub fn get_first_nibble(value: u8) -> (r: u8)
    ensures
        r == value / 16,
        r < 16,
{
    proof {
        assert((value & 0xF0) >> 4 == value / 16 && value / 16 < 16) by (bit_vector);
    }
    (value & 0xF0) >> 4
}

/// The low nibble of a byte: `0xAB` gives `0x0B`.
pub fn get_second_nibble(value: u8) -> (r: u8)
    ensures
        r == value % 16,
        r < 16,
{
    proof {
        assert(value & 0x0F == value % 16) by (bit_vector);
    }
    value & 0x0F
}

/// Joins three nibbles into a 12-bit value, most significant first:
/// `0xA`, `0xB`, `0xC` give `0x0ABC`.
pub fn combine_three_nibbles(first: u8, second: u8, third: u8) -> (r: u16)
    ensures
        first < 16 && second < 16 && third < 16 ==> r == first * 256 + second * 16 + third,
{
    proof {
        assert(first < 16 && second < 16 && third < 16 ==> (((first as u16) << 8) | ((
        second as u16) << 4) | (third as u16)) == first * 256 + second * 16 + third)
            by (bit_vector);
    }
    ((first as u16) << 8) | ((second as u16) << 4) | (third as u16)
}

/// Joins two nibbles into a byte, most significant first:
/// `0xA`, `0xB` give `0xAB`.
pub fn combine_two_nibbles(first: u8, second: u8) -> (r: u8)
    ensures
        first < 16 && second < 16 ==> r == first * 16 + second,
{
    proof {
        assert(first < 16 && second < 16 ==> ((first << 4) | second) == first * 16 + second)
            by (bit_vector);
    }
    (first << 4) | second
}

} // verus!
