//! The flag unit: pure derivations of the five 8080 condition flags from ALU
//! results, and the packing of those flags into the processor status word.

use vstd::prelude::*;

verus! {

/// Which direction of arithmetic an auxiliary-carry test refers to.
#[derive(Clone, Copy, PartialEq, Eq, Structural, Debug)]
pub enum AluOp {
    Add,
    Sub,
}

/// The five condition flags of the processor.
#[derive(Clone, Copy, PartialEq, Eq, Structural, Debug)]
pub struct Flags {
    pub sign: bool,
    pub zero: bool,
    pub parity: bool,
    pub carry: bool,
    pub aux_carry: bool,
}

/// The sign flag: bit 7 of the result.
pub open spec fn spec_sign(res: u8) -> bool {
    (res >> 7) & 1 == 1
}

/// The zero flag: the result is zero.
pub open spec fn spec_zero(res: u8) -> bool {
    res == 0
}

/// The number of set bits among all 8 bits of a byte.
pub open spec fn pop_count(res: u8) -> int {
    ((res >> 0) & 1) + ((res >> 1) & 1) + ((res >> 2) & 1) + ((res >> 3) & 1) + ((res >> 4) & 1)
        + ((res >> 5) & 1) + ((res >> 6) & 1) + ((res >> 7) & 1)
}

/// The parity flag: even parity over all 8 bits of the result.
pub open spec fn spec_parity(res: u8) -> bool {
    pop_count(res) % 2 == 0
}

/// The carry flag after an addition whose unwidened result is `res`: the sum
/// overflowed 8 bits.
pub open spec fn spec_add_carry(res: u16) -> bool {
    res > 0xff
}

/// The carry flag after a subtraction: an unsigned borrow occurred.
pub open spec fn spec_sub_carry(minuend: u8, subtrahend: u8) -> bool {
    minuend < subtrahend
}

/// The auxiliary-carry flag: a carry (or borrow) out of bit 3 into bit 4.
pub open spec fn spec_aux(pre: u8, operand: u8, op: AluOp) -> bool {
    match op {
        AluOp::Add => (pre & 0xf) + (operand & 0xf) > 0xf,
        AluOp::Sub => (pre & 0xf) < (operand & 0xf),
    }
}

/// A flag as the bit it packs to.
pub open spec fn flag_bit(b: bool) -> u8 {
    if b {
        1
    } else {
        0
    }
}

/// The processor status word: sign at bit 7, zero at bit 6, auxiliary carry
/// at bit 4, parity at bit 2, carry at bit 0; bit 1 is architecturally fixed
/// at 1, bits 3 and 5 at 0.
pub open spec fn spec_pack_psw(f: Flags) -> u8 {
    (flag_bit(f.sign) << 7) | (flag_bit(f.zero) << 6) | (flag_bit(f.aux_carry) << 4) | (flag_bit(
        f.parity,
    ) << 2) | 2 | flag_bit(f.carry)
}

/// The five flags recovered from a status word byte.
pub open spec fn spec_unpack_psw(psw: u8) -> Flags {
    Flags {
        sign: psw & 0x80 == 0x80,
        zero: psw & 0x40 == 0x40,
        parity: psw & 0x04 == 0x04,
        carry: psw & 0x01 == 0x01,
        aux_carry: psw & 0x10 == 0x10,
    }
}

/// Packing the five flags into a status word and unpacking it restores every
/// flag, for every combination of the five flags.
pub proof fn lemma_psw_round_trip(f: Flags)
    ensures
        spec_unpack_psw(spec_pack_psw(f)) == f,
{
    let s = flag_bit(f.sign);
    let z = flag_bit(f.zero);
    let ac = flag_bit(f.aux_carry);
    let p = flag_bit(f.parity);
    let c = flag_bit(f.carry);
    assert({
        let b = (s << 7) | (z << 6) | (ac << 4) | (p << 2) | 2 | c;
        ((b & 0x80 == 0x80) == (s == 1)) && ((b & 0x40 == 0x40) == (z == 1)) && ((b & 0x10 == 0x10)
            == (ac == 1)) && ((b & 0x04 == 0x04) == (p == 1)) && ((b & 0x01 == 0x01) == (c == 1))
    }) by (bit_vector)
        requires
            s < 2,
            z < 2,
            ac < 2,
            p < 2,
            c < 2,
    ;
}

impl Flags {
    /// All five flags cleared.
    pub open spec fn spec_default() -> Flags {
        Flags { sign: false, zero: false, parity: false, carry: false, aux_carry: false }
    }

    /// True iff bit 7 of the result is set: the value that will become the
    /// sign flag.
    pub fn calc_sign(&self, res: u8) -> (r: bool)
        ensures
            r == spec_sign(res),
    {
        ((res >> 7) & 1) == 1
    }

    /// True iff the result is zero.
    pub fn calc_zero(&self, res: u8) -> (r: bool)
        ensures
            r == spec_zero(res),
    {
        res == 0
    }

    /// The addition carry flag: the widened sum exceeds 0xFF.
    pub fn calc_add_cy(&self, res: u16) -> (r: bool)
        ensures
            r == spec_add_carry(res),
    {
        res > 0xff
    }

    /// The subtraction carry flag, with borrow semantics: true iff the
    /// minuend is less than the subtrahend as unsigned bytes.
    pub fn calc_sub_cy(&self, minuend: u8, subtrahend: u8) -> (r: bool)
        ensures
            r == spec_sub_carry(minuend, subtrahend),
    {
        minuend < subtrahend
    }

    /// The parity flag: counts the set bits of all 8 bits of the result and
    /// reports whether that count is even.
    pub fn calc_parity(&self, res: u8) -> (r: bool)
        ensures
            r == spec_parity(res),
    {
        let count: u32 = ((res >> 0) & 1) as u32 + ((res >> 1) & 1) as u32 + ((res >> 2) & 1) as u32
            + ((res >> 3) & 1) as u32 + ((res >> 4) & 1) as u32 + ((res >> 5) & 1) as u32 + ((res
            >> 6) & 1) as u32 + ((res >> 7) & 1) as u32;
        count % 2 == 0
    }

    /// The auxiliary-carry flag for an addition or subtraction of `operand`
    /// into `pre`: carry or borrow out of bit 3 into bit 4.
    pub fn calc_aux(&self, pre: u8, operand: u8, op: AluOp) -> (r: bool)
        ensures
            r == spec_aux(pre, operand, op),
    {
        match op {
            AluOp::Add => (pre & 0xf) as u16 + (operand & 0xf) as u16 > 0xf,
            AluOp::Sub => (pre & 0xf) < (operand & 0xf),
        }
    }

    /// Sets the flags that depend on the bare result byte alone: sign and
    /// zero. The remaining flags are left untouched.
    pub fn set_all_flags(&mut self, res: u8)
        ensures
            final(self).sign == spec_sign(res),
            final(self).zero == spec_zero(res),
            final(self).parity == old(self).parity,
            final(self).carry == old(self).carry,
            final(self).aux_carry == old(self).aux_carry,
    {
        let s = self.calc_sign(res);
        let z = self.calc_zero(res);
        self.sign = s;
        self.zero = z;
    }

    /// Packs the five flags into the processor status word.
    pub fn pack_psw(&self) -> (r: u8)
        ensures
            r == spec_pack_psw(*self),
    {
        ((if self.sign {
            1u8
        } else {
            0u8
        }) << 7) | ((if self.zero {
            1u8
        } else {
            0u8
        }) << 6) | ((if self.aux_carry {
            1u8
        } else {
            0u8
        }) << 4) | ((if self.parity {
            1u8
        } else {
            0u8
        }) << 2) | 2 | (if self.carry {
            1u8
        } else {
            0u8
        })
    }

    /// Recovers the five flags from a processor status word byte.
    pub fn unpack_psw(psw: u8) -> (r: Flags)
        ensures
            r == spec_unpack_psw(psw),
    {
        Flags {
            sign: psw & 0x80 == 0x80,
            zero: psw & 0x40 == 0x40,
            parity: psw & 0x04 == 0x04,
            carry: psw & 0x01 == 0x01,
            aux_carry: psw & 0x10 == 0x10,
        }
    }
}

impl Default for Flags {
    /// A fresh flag unit with every flag cleared.
    fn default() -> (r: Flags)
        ensures
            r == Flags::spec_default(),
    {
        Flags { sign: false, zero: false, parity: false, carry: false, aux_carry: false }
    }
}

} // verus!
