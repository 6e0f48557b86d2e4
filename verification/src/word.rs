//! Helpers for 16-bit machine words: sign extension, little-endian
//! assembly, reinterpretation between signed and unsigned views, and
//! truncation to the low byte.

use vstd::prelude::*;

verus! {

/// The 16-bit word whose low byte is `lo` and whose high byte is `hi`.
pub open spec fn spec_word_le(lo: u8, hi: u8) -> u16 {
    (lo + 256 * hi) as u16
}

/// A byte sign-extended to a signed 16-bit value.
pub open spec fn spec_sign_extend8(b: u8) -> i16 {
    if b >= 128 {
        (b - 256) as i16
    } else {
        b as i16
    }
}

/// A byte sign-extended to 16 bits, viewed as an unsigned word.
pub open spec fn spec_sign_extend8_u16(b: u8) -> u16 {
    if b >= 128 {
        (b + 0xff00) as u16
    } else {
        b as u16
    }
}

/// An unsigned 16-bit word reinterpreted as a two's-complement signed value.
pub open spec fn spec_as_signed(w: u16) -> i16 {
    if w >= 0x8000 {
        (w - 0x10000) as i16
    } else {
        w as i16
    }
}

/// A signed 16-bit value reinterpreted as an unsigned word; this is the
/// memory address denoted by a computed effective address.
pub open spec fn spec_as_unsigned(v: i16) -> int {
    if v >= 0 {
        v as int
    } else {
        v + 0x10000
    }
}

/// The low byte of a signed 16-bit value, as stored by byte-granular
/// memory writes.
pub open spec fn spec_low_byte(v: i16) -> u8 {
    (spec_as_unsigned(v) % 256) as u8
}

/// Assemble a little-endian word from two bytes.
pub fn word_le(lo: u8, hi: u8) -> (w: u16)
    ensures
        w == spec_word_le(lo, hi),
{
    lo as u16 + 256 * (hi as u16)
}

/// Sign-extend a byte to a signed 16-bit value.
pub fn sign_extend8(b: u8) -> (v: i16)
    ensures
        v == spec_sign_extend8(b),
{
    if b >= 128 {
        b as i16 - 256
    } else {
        b as i16
    }
}

/// Sign-extend a byte to 16 bits, keeping the unsigned view.
pub fn sign_extend8_u16(b: u8) -> (w: u16)
    ensures
        w == spec_sign_extend8_u16(b),
{
    if b >= 128 {
        b as u16 + 0xff00
    } else {
        b as u16
    }
}

/// Reinterpret an unsigned word as a signed 16-bit value.
pub fn as_signed(w: u16) -> (v: i16)
    ensures
        v == spec_as_signed(w),
{
    if w >= 0x8000 {
        ((w as i32) - 0x10000) as i16
    } else {
        w as i16
    }
}

/// Reinterpret a signed 16-bit value as a memory address in `0..65536`.
pub fn as_unsigned(v: i16) -> (a: usize)
    ensures
        a == spec_as_unsigned(v),
        a < 0x10000,
{
    if v >= 0 {
        v as usize
    } else {
        ((v as i32) + 0x10000) as usize
    }
}

/// The low byte of a signed 16-bit value.
pub fn low_byte(v: i16) -> (b: u8)
    ensures
        b == spec_low_byte(v),
{
    (as_unsigned(v) % 256) as u8
}

} // verus!
