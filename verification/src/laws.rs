//! Laws of the machine that relate several operations: pair accessors,
//! the stack discipline and the CALL/RET protocol, stated over the
//! specification-level transition and proved once and for all.

use crate::bits::hi_byte;
use crate::bits::lemma_word_round_trip;
use crate::bits::lo_byte;
use crate::bits::wrap_sub16;
use crate::isa::Pair;
use crate::isa::PairSp;
use crate::machine::MEM_TOP;
use crate::machine::Machine;
use crate::machine::Outcome;
use crate::machine::Registers;
use crate::machine::cycle_spec;
use crate::machine::in_mem;
use crate::machine::pair_get;
use crate::machine::rp_get;
use crate::machine::rp_set;
use vstd::prelude::*;

verus! {

/// The PUSH opcode of a register pair.
pub open spec fn push_opcode(p: Pair) -> u8 {
    match p {
        Pair::BC => 0xc5,
        Pair::DE => 0xd5,
        Pair::HL => 0xe5,
    }
}

/// The POP opcode of a register pair.
pub open spec fn pop_opcode(p: Pair) -> u8 {
    match p {
        Pair::BC => 0xc1,
        Pair::DE => 0xd1,
        Pair::HL => 0xe1,
    }
}

/// Pair accessor round trip: writing any 16-bit value through a pair
/// accessor and reading the pair back gives the value back, for BC, DE, HL
/// and SP.
pub proof fn lemma_pair_round_trip(r: Registers, p: PairSp, v: u16)
    ensures
        rp_get(rp_set(r, p, v), p) == v,
{
    lemma_word_round_trip(v);
}

/// Stack round trip: executing PUSH of a register pair and then POP of the
/// same pair restores the pair's original value and the stack pointer, for
/// any initial SP with room for the two bytes, as long as the pushed bytes
/// do not land on the POP instruction itself.
pub proof fn lemma_push_pop_round_trip(m: Machine, p: Pair)
    requires
        m.wf(),
        !m.halted,
        m.regs.pc + 1 < MEM_TOP,
        m.mem[m.regs.pc as int] == push_opcode(p),
        m.mem[m.regs.pc + 1] == pop_opcode(p),
        2 <= m.regs.sp <= MEM_TOP,
        m.regs.sp - 1 != m.regs.pc + 1,
        m.regs.sp - 2 != m.regs.pc + 1,
    ensures
        (match cycle_spec(m) {
            Outcome::Next(m1) => match cycle_spec(m1) {
                Outcome::Next(m2) => pair_get(m2.regs, p) == pair_get(m.regs, p) && m2.regs.sp
                    == m.regs.sp && m2.regs.pc == m.regs.pc + 2,
                Outcome::Fault(_) => false,
            },
            Outcome::Fault(_) => false,
        }),
{
    reveal(crate::machine::instr_spec);
    let pairv = pair_get(m.regs, p);
    lemma_word_round_trip(pairv);
    assert(wrap_sub16(m.regs.sp, 1) == m.regs.sp - 1);
    assert(wrap_sub16(m.regs.sp, 2) == m.regs.sp - 2);
}

/// PSW stack round trip: executing PUSH PSW and then POP PSW restores all
/// five flags — carry and auxiliary carry included — as well as the
/// accumulator and the stack pointer, for every combination of the five
/// flags, as long as the pushed bytes do not land on the POP instruction
/// itself.
pub proof fn lemma_push_pop_psw_round_trip(m: Machine)
    requires
        m.wf(),
        !m.halted,
        m.regs.pc + 1 < MEM_TOP,
        m.mem[m.regs.pc as int] == 0xf5,
        m.mem[m.regs.pc + 1] == 0xf1,
        2 <= m.regs.sp <= MEM_TOP,
        m.regs.sp - 1 != m.regs.pc + 1,
        m.regs.sp - 2 != m.regs.pc + 1,
    ensures
        (match cycle_spec(m) {
            Outcome::Next(m1) => match cycle_spec(m1) {
                Outcome::Next(m2) => m2.flags == m.flags && m2.regs.a == m.regs.a && m2.regs.sp
                    == m.regs.sp && m2.regs.pc == m.regs.pc + 2,
                Outcome::Fault(_) => false,
            },
            Outcome::Fault(_) => false,
        }),
{
    reveal(crate::machine::instr_spec);
    crate::flags::lemma_psw_round_trip(m.flags);
    assert(wrap_sub16(m.regs.sp, 1) == m.regs.sp - 1);
    assert(wrap_sub16(m.regs.sp, 2) == m.regs.sp - 2);
}

/// A halted processor refuses to step, reporting `Halted` and touching
/// nothing, until an external reset.
pub proof fn lemma_halted_is_terminal(m: Machine)
    requires
        m.halted,
    ensures
        cycle_spec(m) == Outcome::Fault(crate::machine::ExecutionFault::Halted),
{
}

/// HLT is the only instruction that moves the processor from the running
/// state into the halted state.
#[verifier::rlimit(100)]
#[verifier::spinoff_prover]
pub proof fn lemma_hlt_is_the_only_halt(m: Machine, i: crate::isa::Instr)
    requires
        !m.halted,
    ensures
        (match crate::machine::instr_spec(m, i) {
            Outcome::Next(m2) => m2.halted ==> i == crate::isa::Instr::Hlt,
            Outcome::Fault(_) => true,
        }),
{
    reveal(crate::machine::instr_spec);
}

/// CALL/RET round trip: executing CALL to an address holding RET, from
/// program counter P, ends with the program counter at P + 3 (the length of
/// the CALL instruction) and the stack pointer restored, as long as the
/// pushed return address does not land on the RET instruction itself.
pub proof fn lemma_call_ret_round_trip(m: Machine, x: u16)
    requires
        m.wf(),
        !m.halted,
        m.regs.pc + 2 < MEM_TOP,
        m.mem[m.regs.pc as int] == 0xcd,
        m.mem[m.regs.pc + 1] == lo_byte(x),
        m.mem[m.regs.pc + 2] == hi_byte(x),
        2 <= m.regs.sp <= MEM_TOP,
        in_mem(x),
        m.mem[x as int] == 0xc9,
        x != m.regs.sp - 1,
        x != m.regs.sp - 2,
    ensures
        (match cycle_spec(m) {
            Outcome::Next(m1) => match cycle_spec(m1) {
                Outcome::Next(m2) => m2.regs.pc == m.regs.pc + 3 && m2.regs.sp == m.regs.sp,
                Outcome::Fault(_) => false,
            },
            Outcome::Fault(_) => false,
        }),
{
    reveal(crate::machine::instr_spec);
    lemma_word_round_trip(x);
    lemma_word_round_trip((m.regs.pc + 3) as u16);
    assert(wrap_sub16(m.regs.sp, 1) == m.regs.sp - 1);
    assert(wrap_sub16(m.regs.sp, 2) == m.regs.sp - 2);
}

} // verus!
