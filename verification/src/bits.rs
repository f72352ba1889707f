//! Byte and word arithmetic: splitting and combining 16-bit words, 8-bit and
//! 16-bit wraparound arithmetic, and the nibble tests behind the auxiliary
//! carry flag.

use vstd::arithmetic::div_mod::lemma_fundamental_div_mod;
use vstd::prelude::*;

verus! {

/// The low byte of a 16-bit word.
pub open spec fn lo_byte(v: u16) -> u8 {
    (v % 256) as u8
}

/// The high byte of a 16-bit word.
pub open spec fn hi_byte(v: u16) -> u8 {
    (v / 256) as u8
}

/// The 16-bit word with the given high and low bytes.
pub open spec fn word_from(hi: u8, lo: u8) -> u16 {
    (hi * 256 + lo) as u16
}

/// 16-bit increment, wrapping around from 0xFFFF to 0.
pub open spec fn wrap_inc16(v: u16) -> u16 {
    if v == 0xffff {
        0
    } else {
        (v + 1) as u16
    }
}

/// 16-bit subtraction of a small amount, wrapping around below 0.
pub open spec fn wrap_sub16(v: u16, d: u16) -> u16 {
    if v >= d {
        (v - d) as u16
    } else {
        (v + 0x10000 - d) as u16
    }
}

/// 8-bit addition with an incoming carry, wrapping around above 255.
pub open spec fn add8(a: u8, b: u8, cin: u8) -> u8
    recommends
        cin <= 1,
{
    if a + b + cin > 255 {
        (a + b + cin - 256) as u8
    } else {
        (a + b + cin) as u8
    }
}

/// 8-bit subtraction with an incoming borrow, wrapping around below 0.
pub open spec fn sub8(a: u8, b: u8, cin: u8) -> u8
    recommends
        cin <= 1,
{
    if a < b + cin {
        (a + 256 - b - cin) as u8
    } else {
        (a - b - cin) as u8
    }
}

/// Whether adding the low nibbles (plus incoming carry) carries out of bit 3
/// into bit 4.
pub open spec fn aux_add(a: u8, b: u8, cin: u8) -> bool
    recommends
        cin <= 1,
{
    (a & 0xf) + (b & 0xf) + cin > 0xf
}

/// Whether subtracting the low nibbles (plus incoming borrow) borrows out of
/// bit 4 into bit 3.
pub open spec fn aux_sub(a: u8, b: u8, cin: u8) -> bool
    recommends
        cin <= 1,
{
    (a & 0xf) < (b & 0xf) + cin
}

/// Splitting a word into its bytes and reassembling them gives the word back.
pub proof fn lemma_word_round_trip(v: u16)
    ensures
        word_from(hi_byte(v), lo_byte(v)) == v,
{
    lemma_fundamental_div_mod(v as int, 256);
}

/// Reassembling a word from two bytes and splitting it again gives the two
/// bytes back.
pub proof fn lemma_word_split(hi: u8, lo: u8)
    ensures
        hi_byte(word_from(hi, lo)) == hi,
        lo_byte(word_from(hi, lo)) == lo,
{
    assert((hi * 256 + lo) / 256 == hi as int) by (nonlinear_arith)
        requires
            0 <= lo < 256,
            0 <= hi,
    ;
    assert((hi * 256 + lo) % 256 == lo as int) by (nonlinear_arith)
        requires
            0 <= lo < 256,
            0 <= hi,
    ;
}

/// Combines two bytes little-endian style, the first byte becoming the low
/// byte of the result: the layout of 16-bit immediates in the instruction
/// stream.
pub fn combine_le(low: u8, high: u8) -> (r: u16)
    ensures
        r == word_from(high, low),
{
    (high as u16) * 256 + (low as u16)
}

/// Combines two bytes big-endian style, the first byte becoming the high byte
/// of the result: the layout of a register pair.
pub fn combine_be(high: u8, low: u8) -> (r: u16)
    ensures
        r == word_from(high, low),
{
    (high as u16) * 256 + (low as u16)
}

/// 16-bit increment with wraparound, as executable code.
pub fn winc16(v: u16) -> (r: u16)
    ensures
        r == wrap_inc16(v),
{
    if v == 0xffff {
        0
    } else {
        v + 1
    }
}

/// 16-bit subtraction of a small amount with wraparound, as executable code.
pub fn wsub16(v: u16, d: u16) -> (r: u16)
    ensures
        r == wrap_sub16(v, d),
{
    if v >= d {
        v - d
    } else {
        ((v as u32) + 0x10000 - (d as u32)) as u16
    }
}

/// The low byte of a word, as executable code.
pub fn low_of(v: u16) -> (r: u8)
    ensures
        r == lo_byte(v),
{
    (v % 256) as u8
}

/// The high byte of a word, as executable code.
pub fn high_of(v: u16) -> (r: u8)
    ensures
        r == hi_byte(v),
{
    (v / 256) as u8
}

} // verus!
