//! The decode/execute engine: fetches the opcode at the program counter,
//! dispatches on the decoded instruction, mutates registers, flags, memory
//! and ports, and reports the instruction's cycle cost. Every path is proved
//! against the specification-level transition `cycle_spec`.

use crate::bits::combine_le;
use crate::bits::high_of;
use crate::bits::low_of;
use crate::bits::winc16;
use crate::bits::wsub16;
use crate::cpu::Cpu;
use crate::flags::AluOp;
use crate::flags::Flags;
use crate::isa::AluKind;
use crate::isa::Cond;
use crate::isa::Instr;
use crate::isa::Loc;
use crate::isa::Operand;
use crate::isa::Pair;
use crate::isa::PairSp;
use crate::isa::Reg8;
use crate::isa::cycles_of;
use crate::isa::cycles_spec;
use crate::isa::decode;
use crate::machine::ExecutionFault;
use crate::machine::MEM_TOP;
use crate::machine::Outcome;
use crate::machine::Registers;
use crate::machine::alu_apply;
use crate::machine::cond_holds;
use crate::machine::cycle_spec;
use crate::machine::dcr_flags;
use crate::machine::hl_addr;
use crate::machine::in_mem;
use crate::machine::inr_flags;
use crate::machine::instr_spec;
use crate::machine::pair_get;
use crate::machine::pop_ok;
use crate::machine::pop_value;
use crate::machine::push_ok;
use crate::machine::push_word;
use crate::machine::reg_get;
use crate::machine::reg_set;
use vstd::prelude::*;

verus! {

/// Whether a step left the bookkeeping counters of the processor alone.
pub open spec fn same_counters(pre: Cpu, post: Cpu) -> bool {
    post.instructions == pre.instructions && post.subcycles == pre.subcycles
}

/// Whether an execution step agreed with the specification of instruction
/// `i`: on a fault it reported that fault and changed nothing; otherwise it
/// produced exactly the specified machine state.
pub open spec fn obeys_instr(pre: Cpu, i: Instr, post: Cpu, r: Result<(), ExecutionFault>) -> bool {
    match instr_spec(pre.model(), i) {
        Outcome::Fault(f) => r == Err::<(), ExecutionFault>(f) && post.model() == pre.model(),
        Outcome::Next(m2) => r == Ok::<(), ExecutionFault>(()) && post.model() == m2,
    }
}

/// Evaluates a branch condition against the current flags.
fn cond_eval(c: Cond, f: &Flags) -> (r: bool)
    ensures
        r == cond_holds(c, *f),
{
    match c {
        Cond::Always => true,
        Cond::NotZero => !f.zero,
        Cond::Zero => f.zero,
        Cond::NotCarry => !f.carry,
        Cond::Carry => f.carry,
        Cond::ParityOdd => !f.parity,
        Cond::ParityEven => f.parity,
        Cond::Plus => !f.sign,
        Cond::Minus => f.sign,
    }
}

impl Cpu {
    /// Reads an 8-bit register.
    fn reg_read(&self, n: Reg8) -> (r: u8)
        ensures
            r == reg_get(self.regs, n),
    {
        match n {
            Reg8::A => self.regs.a,
            Reg8::B => self.regs.b,
            Reg8::C => self.regs.c,
            Reg8::D => self.regs.d,
            Reg8::E => self.regs.e,
            Reg8::H => self.regs.h,
            Reg8::L => self.regs.l,
        }
    }

    /// Writes an 8-bit register.
    fn reg_write(&mut self, n: Reg8, v: u8)
        ensures
            final(self).regs == reg_set(old(self).regs, n, v),
            final(self).flags == old(self).flags,
            final(self).memory@ == old(self).memory@,
            final(self).io == old(self).io,
            final(self).hlted == old(self).hlted,
            same_counters(*old(self), *final(self)),
    {
        match n {
            Reg8::A => self.regs.a = v,
            Reg8::B => self.regs.b = v,
            Reg8::C => self.regs.c = v,
            Reg8::D => self.regs.d = v,
            Reg8::E => self.regs.e = v,
            Reg8::H => self.regs.h = v,
            Reg8::L => self.regs.l = v,
        }
    }

    /// Reads a register pair as a word.
    fn pair_read(&self, p: Pair) -> (r: u16)
        ensures
            r == pair_get(self.regs, p),
    {
        match p {
            Pair::BC => self.cmb_be(self.regs.b, self.regs.c),
            Pair::DE => self.cmb_be(self.regs.d, self.regs.e),
            Pair::HL => self.cmb_be(self.regs.h, self.regs.l),
        }
    }

    /// Whether the address in HL lies inside the address space.
    fn hl_in_range(&self) -> (r: bool)
        ensures
            r == in_mem(hl_addr(self.regs)),
    {
        self.cmb_be(self.regs.h, self.regs.l) < MEM_TOP
    }

    /// ADD: adds the operand into the accumulator, setting all five flags.
    pub fn add(&mut self, val: u8)
        ensures
            final(self).model() == alu_apply(old(self).model(), AluKind::Add, val),
            same_counters(*old(self), *final(self)),
    {
        let a = self.regs.a;
        let wide: u16 = a as u16 + val as u16;
        let res: u8 = if wide > 255 {
            (wide - 256) as u8
        } else {
            wide as u8
        };
        self.flags.carry = self.flags.calc_add_cy(wide);
        self.flags.zero = self.flags.calc_zero(res);
        self.flags.sign = self.flags.calc_sign(res);
        self.flags.parity = self.flags.calc_parity(res);
        self.flags.aux_carry = self.flags.calc_aux(a, val, AluOp::Add);
        self.regs.a = res;
    }

    /// ADC: adds the operand and the incoming carry into the accumulator,
    /// setting all five flags over the full sum.
    pub fn adc(&mut self, val: u8)
        ensures
            final(self).model() == alu_apply(old(self).model(), AluKind::Adc, val),
            same_counters(*old(self), *final(self)),
    {
        let a = self.regs.a;
        let cin: u8 = if self.flags.carry {
            1
        } else {
            0
        };
        let wide: u16 = a as u16 + val as u16 + cin as u16;
        let res: u8 = if wide > 255 {
            (wide - 256) as u8
        } else {
            wide as u8
        };
        self.flags.carry = self.flags.calc_add_cy(wide);
        self.flags.zero = self.flags.calc_zero(res);
        self.flags.sign = self.flags.calc_sign(res);
        self.flags.parity = self.flags.calc_parity(res);
        self.flags.aux_carry = ((a & 0xf) as u16 + (val & 0xf) as u16 + cin as u16) > 0xf;
        self.regs.a = res;
    }

    /// The shared body of the subtraction family: computes the wrapped
    /// difference and all five flags with borrow semantics.
    fn sub_core(&mut self, val: u8, cin: u8) -> (r: u8)
        requires
            cin <= 1,
        ensures
            r == crate::bits::sub8(old(self).regs.a, val, cin),
            final(self).regs == old(self).regs,
            final(self).memory@ == old(self).memory@,
            final(self).io == old(self).io,
            final(self).hlted == old(self).hlted,
            same_counters(*old(self), *final(self)),
            final(self).flags == (Flags {
                sign: crate::flags::spec_sign(crate::bits::sub8(old(self).regs.a, val, cin)),
                zero: crate::flags::spec_zero(crate::bits::sub8(old(self).regs.a, val, cin)),
                parity: crate::flags::spec_parity(crate::bits::sub8(old(self).regs.a, val, cin)),
                carry: old(self).regs.a < val + cin,
                aux_carry: crate::bits::aux_sub(old(self).regs.a, val, cin),
            }),
    {
        let a = self.regs.a;
        let bw: u16 = val as u16 + cin as u16;
        let res: u8 = if (a as u16) >= bw {
            (a as u16 - bw) as u8
        } else {
            (a as u16 + 256 - bw) as u8
        };
        self.flags.carry = (a as u16) < bw;
        self.flags.zero = self.flags.calc_zero(res);
        self.flags.sign = self.flags.calc_sign(res);
        self.flags.parity = self.flags.calc_parity(res);
        self.flags.aux_carry = ((a & 0xf) as u16) < ((val & 0xf) as u16 + cin as u16);
        res
    }

    /// SUB: subtracts the operand from the accumulator, setting all five
    /// flags with borrow semantics.
    pub fn sub(&mut self, val: u8)
        ensures
            final(self).model() == alu_apply(old(self).model(), AluKind::Sub, val),
            same_counters(*old(self), *final(self)),
    {
        let res = self.sub_core(val, 0);
        self.regs.a = res;
    }

    /// SBB: subtracts the operand and the incoming borrow from the
    /// accumulator, setting all five flags with borrow semantics.
    pub fn sbb(&mut self, val: u8)
        ensures
            final(self).model() == alu_apply(old(self).model(), AluKind::Sbb, val),
            same_counters(*old(self), *final(self)),
    {
        let cin: u8 = if self.flags.carry {
            1
        } else {
            0
        };
        let res = self.sub_core(val, cin);
        self.regs.a = res;
    }

    /// CMP: sets the same five flags as SUB without storing the result.
    pub fn cmp(&mut self, val: u8)
        ensures
            final(self).model() == alu_apply(old(self).model(), AluKind::Cmp, val),
            same_counters(*old(self), *final(self)),
    {
        let _ = self.sub_core(val, 0);
    }

    /// ANA: bitwise AND into the accumulator; carry and auxiliary carry are
    /// cleared.
    pub fn ana(&mut self, val: u8)
        ensures
            final(self).model() == alu_apply(old(self).model(), AluKind::Ana, val),
            same_counters(*old(self), *final(self)),
    {
        let res = self.regs.a & val;
        self.logic_flags_set(res);
        self.regs.a = res;
    }

    /// XRA: bitwise exclusive OR into the accumulator; carry and auxiliary
    /// carry are cleared.
    pub fn xra(&mut self, val: u8)
        ensures
            final(self).model() == alu_apply(old(self).model(), AluKind::Xra, val),
            same_counters(*old(self), *final(self)),
    {
        let res = self.regs.a ^ val;
        self.logic_flags_set(res);
        self.regs.a = res;
    }

    /// ORA: bitwise OR into the accumulator; carry and auxiliary carry are
    /// cleared.
    pub fn ora(&mut self, val: u8)
        ensures
            final(self).model() == alu_apply(old(self).model(), AluKind::Ora, val),
            same_counters(*old(self), *final(self)),
    {
        let res = self.regs.a | val;
        self.logic_flags_set(res);
        self.regs.a = res;
    }

    /// Sets the flags a logical operation leaves behind: sign, zero and
    /// parity of the result, carry and auxiliary carry cleared.
    fn logic_flags_set(&mut self, res: u8)
        ensures
            final(self).flags == crate::machine::logic_flags(res),
            final(self).regs == old(self).regs,
            final(self).memory@ == old(self).memory@,
            final(self).io == old(self).io,
            final(self).hlted == old(self).hlted,
            same_counters(*old(self), *final(self)),
    {
        self.flags.carry = false;
        self.flags.aux_carry = false;
        self.flags.zero = self.flags.calc_zero(res);
        self.flags.sign = self.flags.calc_sign(res);
        self.flags.parity = self.flags.calc_parity(res);
    }

    /// INR's flag work: returns the incremented byte and sets sign, zero,
    /// parity and auxiliary carry from it, never touching carry.
    pub fn inr(&mut self, reg: u8) -> (r: u8)
        ensures
            r == crate::bits::add8(reg, 1, 0),
            final(self).flags == inr_flags(old(self).flags, reg),
            final(self).regs == old(self).regs,
            final(self).memory@ == old(self).memory@,
            final(self).io == old(self).io,
            final(self).hlted == old(self).hlted,
            same_counters(*old(self), *final(self)),
    {
        let res: u8 = if reg == 255 {
            0
        } else {
            reg + 1
        };
        self.flags.zero = self.flags.calc_zero(res);
        self.flags.sign = self.flags.calc_sign(res);
        self.flags.parity = self.flags.calc_parity(res);
        self.flags.aux_carry = self.flags.calc_aux(reg, 1, AluOp::Add);
        res
    }

    /// DCR's flag work: returns the decremented byte and sets sign, zero,
    /// parity and auxiliary borrow from it, never touching carry.
    pub fn dcr(&mut self, reg: u8) -> (r: u8)
        ensures
            r == crate::bits::sub8(reg, 1, 0),
            final(self).flags == dcr_flags(old(self).flags, reg),
            final(self).regs == old(self).regs,
            final(self).memory@ == old(self).memory@,
            final(self).io == old(self).io,
            final(self).hlted == old(self).hlted,
            same_counters(*old(self), *final(self)),
    {
        let res: u8 = if reg == 0 {
            255
        } else {
            reg - 1
        };
        self.flags.zero = self.flags.calc_zero(res);
        self.flags.sign = self.flags.calc_sign(res);
        self.flags.parity = self.flags.calc_parity(res);
        self.flags.aux_carry = self.flags.calc_aux(reg, 1, AluOp::Sub);
        res
    }

    /// Pushes a 16-bit word onto the stack: the first byte at SP-1, the
    /// second at SP-2, lowering SP by 2. Reports a fault, touching nothing,
    /// if either cell lies outside the address space.
    pub fn push_regs(&mut self, reg1: u8, reg2: u8) -> (r: Result<(), ExecutionFault>)
        requires
            old(self).wf(),
        ensures
            final(self).wf(),
            same_counters(*old(self), *final(self)),
            push_ok(old(self).model()) ==> r == Ok::<(), ExecutionFault>(()) && final(self).model()
                == push_word(old(self).model(), reg1, reg2),
            !push_ok(old(self).model()) ==> r == Err::<(), ExecutionFault>(
                ExecutionFault::AddressOutOfRange,
            ) && final(self).model() == old(self).model(),
    {
        let sp = self.regs.sp;
        let a1 = wsub16(sp, 1);
        let a2 = wsub16(sp, 2);
        if a1 >= MEM_TOP || a2 >= MEM_TOP {
            return Err(ExecutionFault::AddressOutOfRange);
        }
        self.mem_write(a1 as usize, reg1);
        self.mem_write(a2 as usize, reg2);
        self.regs.sp = a2;
        Ok(())
    }

    /// Pops the 16-bit word on top of the stack, raising SP by 2, and
    /// returns it as (high byte, low byte). Reports a fault, touching
    /// nothing, if either cell lies outside the address space.
    fn pop_bytes(&mut self) -> (r: Result<(u8, u8), ExecutionFault>)
        requires
            old(self).wf(),
        ensures
            final(self).wf(),
            same_counters(*old(self), *final(self)),
            pop_ok(old(self).model()) ==> r == Ok::<(u8, u8), ExecutionFault>(
                (
                    old(self).memory@[crate::bits::wrap_inc16(old(self).regs.sp) as int],
                    old(self).memory@[old(self).regs.sp as int],
                ),
            ) && final(self).model() == old(self).model().with_regs(
                Registers { sp: (old(self).regs.sp + 2) as u16, ..old(self).regs },
            ),
            !pop_ok(old(self).model()) ==> r == Err::<(u8, u8), ExecutionFault>(
                ExecutionFault::AddressOutOfRange,
            ) && final(self).model() == old(self).model(),
    {
        let sp = self.regs.sp;
        let a_hi = winc16(sp);
        if sp >= MEM_TOP || a_hi >= MEM_TOP {
            return Err(ExecutionFault::AddressOutOfRange);
        }
        let lo = self.memory[sp as usize];
        let hi = self.memory[a_hi as usize];
        self.regs.sp = sp + 2;
        Ok((hi, lo))
    }

    /// POP into the BC pair.
    pub fn pop_into_bc(&mut self) -> (r: Result<(), ExecutionFault>)
        requires
            old(self).wf(),
        ensures
            final(self).wf(),
            same_counters(*old(self), *final(self)),
            pop_ok(old(self).model()) ==> r == Ok::<(), ExecutionFault>(()) && final(self).model()
                == old(self).model().with_regs(
                Registers {
                    sp: (old(self).regs.sp + 2) as u16,
                    ..crate::machine::pair_set(
                        old(self).regs,
                        Pair::BC,
                        pop_value(old(self).model()),
                    )
                },
            ),
            !pop_ok(old(self).model()) ==> r == Err::<(), ExecutionFault>(
                ExecutionFault::AddressOutOfRange,
            ) && final(self).model() == old(self).model(),
    {
        let (hi, lo) = match self.pop_bytes() {
            Ok(p) => p,
            Err(f) => {
                return Err(f);
            },
        };
        self.regs.b = hi;
        self.regs.c = lo;
        proof {
            crate::bits::lemma_word_split(hi, lo);
        }
        Ok(())
    }

    /// POP into the DE pair.
    pub fn pop_into_de(&mut self) -> (r: Result<(), ExecutionFault>)
        requires
            old(self).wf(),
        ensures
            final(self).wf(),
            same_counters(*old(self), *final(self)),
            pop_ok(old(self).model()) ==> r == Ok::<(), ExecutionFault>(()) && final(self).model()
                == old(self).model().with_regs(
                Registers {
                    sp: (old(self).regs.sp + 2) as u16,
                    ..crate::machine::pair_set(
                        old(self).regs,
                        Pair::DE,
                        pop_value(old(self).model()),
                    )
                },
            ),
            !pop_ok(old(self).model()) ==> r == Err::<(), ExecutionFault>(
                ExecutionFault::AddressOutOfRange,
            ) && final(self).model() == old(self).model(),
    {
        let (hi, lo) = match self.pop_bytes() {
            Ok(p) => p,
            Err(f) => {
                return Err(f);
            },
        };
        self.regs.d = hi;
        self.regs.e = lo;
        proof {
            crate::bits::lemma_word_split(hi, lo);
        }
        Ok(())
    }

    /// POP into the HL pair.
    pub fn pop_into_hl(&mut self) -> (r: Result<(), ExecutionFault>)
        requires
            old(self).wf(),
        ensures
            final(self).wf(),
            same_counters(*old(self), *final(self)),
            pop_ok(old(self).model()) ==> r == Ok::<(), ExecutionFault>(()) && final(self).model()
                == old(self).model().with_regs(
                Registers {
                    sp: (old(self).regs.sp + 2) as u16,
                    ..crate::machine::pair_set(
                        old(self).regs,
                        Pair::HL,
                        pop_value(old(self).model()),
                    )
                },
            ),
            !pop_ok(old(self).model()) ==> r == Err::<(), ExecutionFault>(
                ExecutionFault::AddressOutOfRange,
            ) && final(self).model() == old(self).model(),
    {
        let (hi, lo) = match self.pop_bytes() {
            Ok(p) => p,
            Err(f) => {
                return Err(f);
            },
        };
        self.regs.h = hi;
        self.regs.l = lo;
        proof {
            crate::bits::lemma_word_split(hi, lo);
        }
        Ok(())
    }

    /// JMP: sets the program counter to the 16-bit immediate after the
    /// opcode.
    pub fn jmp_immediate(&mut self)
        requires
            old(self).wf(),
            old(self).model().imm2_ok(),
        ensures
            final(self).wf(),
            same_counters(*old(self), *final(self)),
            final(self).model() == old(self).model().with_regs(
                Registers { pc: old(self).model().imm_word(), ..old(self).regs },
            ),
    {
        let pc = self.regs.pc;
        let lo = self.memory[(pc + 1) as usize];
        let hi = self.memory[(pc + 2) as usize];
        self.regs.pc = combine_le(lo, hi);
    }

    /// RET: pops the return address into the program counter. Reports a
    /// fault, touching nothing, if the stack cells lie outside the address
    /// space.
    pub fn ret(&mut self) -> (r: Result<(), ExecutionFault>)
        requires
            old(self).wf(),
        ensures
            final(self).wf(),
            same_counters(*old(self), *final(self)),
            pop_ok(old(self).model()) ==> r == Ok::<(), ExecutionFault>(()) && final(self).model()
                == old(self).model().with_regs(
                Registers {
                    pc: pop_value(old(self).model()),
                    sp: (old(self).regs.sp + 2) as u16,
                    ..old(self).regs
                },
            ),
            !pop_ok(old(self).model()) ==> r == Err::<(), ExecutionFault>(
                ExecutionFault::AddressOutOfRange,
            ) && final(self).model() == old(self).model(),
    {
        let (hi, lo) = match self.pop_bytes() {
            Ok(p) => p,
            Err(f) => {
                return Err(f);
            },
        };
        self.regs.pc = combine_le(lo, hi);
        Ok(())
    }

    /// Executes one MOV or MVI: a copy between registers, memory via HL and
    /// an immediate byte. No flags are affected.
    fn do_mov(&mut self, dst: Loc, src: Operand) -> (r: Result<(), ExecutionFault>)
        requires
            old(self).wf(),
            in_mem(old(self).regs.pc),
        ensures
            final(self).wf(),
            same_counters(*old(self), *final(self)),
            obeys_instr(*old(self), Instr::Mov(dst, src), *final(self), r),
    {
        proof {
            reveal(crate::machine::instr_spec);
        }
        let pc = self.regs.pc;
        let v: u8;
        let len: u16;
        match src {
            Operand::Reg(rs) => {
                v = self.reg_read(rs);
                len = 1;
            },
            Operand::Mem => {
                if !self.hl_in_range() {
                    return Err(ExecutionFault::AddressOutOfRange);
                }
                v = self.get_m();
                len = 1;
            },
            Operand::Imm => {
                if pc >= MEM_TOP - 1 {
                    return Err(ExecutionFault::AddressOutOfRange);
                }
                v = self.memory[(pc + 1) as usize];
                len = 2;
            },
        }
        match dst {
            Loc::Reg(rd) => self.reg_write(rd, v),
            Loc::Mem => {
                if !self.hl_in_range() {
                    return Err(ExecutionFault::AddressOutOfRange);
                }
                self.set_m(v);
            },
        }
        self.regs.pc = pc + len;
        Ok(())
    }

    /// Executes one LXI: loads a register pair or SP from the little-endian
    /// 16-bit immediate. No flags are affected.
    fn do_lxi(&mut self, p: PairSp) -> (r: Result<(), ExecutionFault>)
        requires
            old(self).wf(),
            in_mem(old(self).regs.pc),
        ensures
            final(self).wf(),
            same_counters(*old(self), *final(self)),
            obeys_instr(*old(self), Instr::Lxi(p), *final(self), r),
    {
        proof {
            reveal(crate::machine::instr_spec);
        }
        let pc = self.regs.pc;
        if pc >= MEM_TOP - 2 {
            return Err(ExecutionFault::AddressOutOfRange);
        }
        let lo = self.memory[(pc + 1) as usize];
        let hi = self.memory[(pc + 2) as usize];
        let w = combine_le(lo, hi);
        match p {
            PairSp::BC => self.regs.set_bc(w),
            PairSp::DE => self.regs.set_de(w),
            PairSp::HL => self.regs.set_hl(w),
            PairSp::SP => self.regs.sp = w,
        }
        self.regs.pc = pc + 3;
        Ok(())
    }

    /// Executes STA: stores the accumulator at the immediate address.
    fn do_sta(&mut self) -> (r: Result<(), ExecutionFault>)
        requires
            old(self).wf(),
            in_mem(old(self).regs.pc),
        ensures
            final(self).wf(),
            same_counters(*old(self), *final(self)),
            obeys_instr(*old(self), Instr::Sta, *final(self), r),
    {
        proof {
            reveal(crate::machine::instr_spec);
        }
        let pc = self.regs.pc;
        if pc >= MEM_TOP - 2 {
            return Err(ExecutionFault::AddressOutOfRange);
        }
        let lo = self.memory[(pc + 1) as usize];
        let hi = self.memory[(pc + 2) as usize];
        let addr = combine_le(lo, hi);
        if addr >= MEM_TOP {
            return Err(ExecutionFault::AddressOutOfRange);
        }
        let a = self.regs.a;
        self.mem_write(addr as usize, a);
        self.regs.pc = pc + 3;
        Ok(())
    }

    /// Executes LDA: loads the accumulator from the immediate address.
    fn do_lda(&mut self) -> (r: Result<(), ExecutionFault>)
        requires
            old(self).wf(),
            in_mem(old(self).regs.pc),
        ensures
            final(self).wf(),
            same_counters(*old(self), *final(self)),
            obeys_instr(*old(self), Instr::Lda, *final(self), r),
    {
        proof {
            reveal(crate::machine::instr_spec);
        }
        let pc = self.regs.pc;
        if pc >= MEM_TOP - 2 {
            return Err(ExecutionFault::AddressOutOfRange);
        }
        let lo = self.memory[(pc + 1) as usize];
        let hi = self.memory[(pc + 2) as usize];
        let addr = combine_le(lo, hi);
        if addr >= MEM_TOP {
            return Err(ExecutionFault::AddressOutOfRange);
        }
        self.regs.a = self.memory[addr as usize];
        self.regs.pc = pc + 3;
        Ok(())
    }

    /// Executes SHLD: stores L then H at the immediate address and the cell
    /// after it.
    fn do_shld(&mut self) -> (r: Result<(), ExecutionFault>)
        requires
            old(self).wf(),
            in_mem(old(self).regs.pc),
        ensures
            final(self).wf(),
            same_counters(*old(self), *final(self)),
            obeys_instr(*old(self), Instr::Shld, *final(self), r),
    {
        proof {
            reveal(crate::machine::instr_spec);
        }
        let pc = self.regs.pc;
        if pc >= MEM_TOP - 2 {
            return Err(ExecutionFault::AddressOutOfRange);
        }
        let lo = self.memory[(pc + 1) as usize];
        let hi = self.memory[(pc + 2) as usize];
        let addr = combine_le(lo, hi);
        let addr1 = winc16(addr);
        if addr >= MEM_TOP || addr1 >= MEM_TOP {
            return Err(ExecutionFault::AddressOutOfRange);
        }
        let l = self.regs.l;
        let h = self.regs.h;
        self.mem_write(addr as usize, l);
        self.mem_write(addr1 as usize, h);
        self.regs.pc = pc + 3;
        Ok(())
    }

    /// Executes LHLD: loads L then H from the immediate address and the cell
    /// after it.
    fn do_lhld(&mut self) -> (r: Result<(), ExecutionFault>)
        requires
            old(self).wf(),
            in_mem(old(self).regs.pc),
        ensures
            final(self).wf(),
            same_counters(*old(self), *final(self)),
            obeys_instr(*old(self), Instr::Lhld, *final(self), r),
    {
        proof {
            reveal(crate::machine::instr_spec);
        }
        let pc = self.regs.pc;
        if pc >= MEM_TOP - 2 {
            return Err(ExecutionFault::AddressOutOfRange);
        }
        let lo = self.memory[(pc + 1) as usize];
        let hi = self.memory[(pc + 2) as usize];
        let addr = combine_le(lo, hi);
        let addr1 = winc16(addr);
        if addr >= MEM_TOP || addr1 >= MEM_TOP {
            return Err(ExecutionFault::AddressOutOfRange);
        }
        self.regs.l = self.memory[addr as usize];
        self.regs.h = self.memory[addr1 as usize];
        self.regs.pc = pc + 3;
        Ok(())
    }

    /// Executes STAX: stores the accumulator at the address in a register
    /// pair.
    fn do_stax(&mut self, p: Pair) -> (r: Result<(), ExecutionFault>)
        requires
            old(self).wf(),
            in_mem(old(self).regs.pc),
        ensures
            final(self).wf(),
            same_counters(*old(self), *final(self)),
            obeys_instr(*old(self), Instr::Stax(p), *final(self), r),
    {
        proof {
            reveal(crate::machine::instr_spec);
        }
        let pc = self.regs.pc;
        let addr = self.pair_read(p);
        if addr >= MEM_TOP {
            return Err(ExecutionFault::AddressOutOfRange);
        }
        let a = self.regs.a;
        self.mem_write(addr as usize, a);
        self.regs.pc = pc + 1;
        Ok(())
    }

    /// Executes LDAX: loads the accumulator from the address in a register
    /// pair.
    fn do_ldax(&mut self, p: Pair) -> (r: Result<(), ExecutionFault>)
        requires
            old(self).wf(),
            in_mem(old(self).regs.pc),
        ensures
            final(self).wf(),
            same_counters(*old(self), *final(self)),
            obeys_instr(*old(self), Instr::Ldax(p), *final(self), r),
    {
        proof {
            reveal(crate::machine::instr_spec);
        }
        let pc = self.regs.pc;
        let addr = self.pair_read(p);
        if addr >= MEM_TOP {
            return Err(ExecutionFault::AddressOutOfRange);
        }
        match p {
            Pair::BC => self.ldax(self.regs.b, self.regs.c),
            Pair::DE => self.ldax(self.regs.d, self.regs.e),
            Pair::HL => self.ldax(self.regs.h, self.regs.l),
        }
        self.regs.pc = pc + 1;
        Ok(())
    }

    /// Executes DAD: adds a register pair into HL with 32-bit intermediate
    /// arithmetic; only the carry flag is affected.
    fn do_dad(&mut self, p: Pair) -> (r: Result<(), ExecutionFault>)
        requires
            old(self).wf(),
            in_mem(old(self).regs.pc),
        ensures
            final(self).wf(),
            same_counters(*old(self), *final(self)),
            obeys_instr(*old(self), Instr::Dad(p), *final(self), r),
    {
        proof {
            reveal(crate::machine::instr_spec);
        }
        let pc = self.regs.pc;
        let hl = self.cmb_be(self.regs.h, self.regs.l);
        let rp = self.pair_read(p);
        let sum: u32 = hl as u32 + rp as u32;
        let carry = sum > 0xffff;
        let nhl: u16 = if sum > 0xffff {
            (sum - 0x10000) as u16
        } else {
            sum as u16
        };
        self.regs.set_hl(nhl);
        self.flags.carry = carry;
        self.regs.pc = pc + 1;
        Ok(())
    }

    /// Executes one ALU instruction: fetches the operand (register, memory
    /// via HL, or immediate), applies the operation to the accumulator and
    /// advances past the instruction.
    fn do_alu(&mut self, k: AluKind, src: Operand) -> (r: Result<(), ExecutionFault>)
        requires
            old(self).wf(),
            in_mem(old(self).regs.pc),
        ensures
            final(self).wf(),
            same_counters(*old(self), *final(self)),
            obeys_instr(*old(self), Instr::Alu(k, src), *final(self), r),
    {
        proof {
            reveal(crate::machine::instr_spec);
        }
        let pc = self.regs.pc;
        let v: u8;
        let len: u16;
        match src {
            Operand::Reg(rs) => {
                v = self.reg_read(rs);
                len = 1;
            },
            Operand::Mem => {
                if !self.hl_in_range() {
                    return Err(ExecutionFault::AddressOutOfRange);
                }
                v = self.get_m();
                len = 1;
            },
            Operand::Imm => {
                if pc >= MEM_TOP - 1 {
                    return Err(ExecutionFault::AddressOutOfRange);
                }
                v = self.memory[(pc + 1) as usize];
                len = 2;
            },
        }
        match k {
            AluKind::Add => self.add(v),
            AluKind::Adc => self.adc(v),
            AluKind::Sub => self.sub(v),
            AluKind::Sbb => self.sbb(v),
            AluKind::Ana => self.ana(v),
            AluKind::Xra => self.xra(v),
            AluKind::Ora => self.ora(v),
            AluKind::Cmp => self.cmp(v),
        }
        self.regs.pc = pc + len;
        Ok(())
    }

    /// Executes INR on a register or on memory via HL; the carry flag is
    /// never affected.
    fn do_inr(&mut self, loc: Loc) -> (r: Result<(), ExecutionFault>)
        requires
            old(self).wf(),
            in_mem(old(self).regs.pc),
        ensures
            final(self).wf(),
            same_counters(*old(self), *final(self)),
            obeys_instr(*old(self), Instr::Inr(loc), *final(self), r),
    {
        proof {
            reveal(crate::machine::instr_spec);
        }
        let pc = self.regs.pc;
        match loc {
            Loc::Reg(rd) => {
                let v = self.reg_read(rd);
                let res = self.inr(v);
                self.reg_write(rd, res);
            },
            Loc::Mem => {
                if !self.hl_in_range() {
                    return Err(ExecutionFault::AddressOutOfRange);
                }
                let v = self.get_m();
                let res = self.inr(v);
                self.set_m(res);
            },
        }
        self.regs.pc = pc + 1;
        Ok(())
    }

    /// Executes DCR on a register or on memory via HL; the carry flag is
    /// never affected.
    fn do_dcr(&mut self, loc: Loc) -> (r: Result<(), ExecutionFault>)
        requires
            old(self).wf(),
            in_mem(old(self).regs.pc),
        ensures
            final(self).wf(),
            same_counters(*old(self), *final(self)),
            obeys_instr(*old(self), Instr::Dcr(loc), *final(self), r),
    {
        proof {
            reveal(crate::machine::instr_spec);
        }
        let pc = self.regs.pc;
        match loc {
            Loc::Reg(rd) => {
                let v = self.reg_read(rd);
                let res = self.dcr(v);
                self.reg_write(rd, res);
            },
            Loc::Mem => {
                if !self.hl_in_range() {
                    return Err(ExecutionFault::AddressOutOfRange);
                }
                let v = self.get_m();
                let res = self.dcr(v);
                self.set_m(res);
            },
        }
        self.regs.pc = pc + 1;
        Ok(())
    }

    /// Executes INX: increments a register pair or SP with wraparound; no
    /// flags are affected.
    fn do_inx(&mut self, p: PairSp) -> (r: Result<(), ExecutionFault>)
        requires
            old(self).wf(),
            in_mem(old(self).regs.pc),
        ensures
            final(self).wf(),
            same_counters(*old(self), *final(self)),
            obeys_instr(*old(self), Instr::Inx(p), *final(self), r),
    {
        proof {
            reveal(crate::machine::instr_spec);
        }
        let pc = self.regs.pc;
        match p {
            PairSp::BC => {
                let w = winc16(self.cmb_be(self.regs.b, self.regs.c));
                self.regs.set_bc(w);
            },
            PairSp::DE => {
                let w = winc16(self.cmb_be(self.regs.d, self.regs.e));
                self.regs.set_de(w);
            },
            PairSp::HL => {
                let w = winc16(self.cmb_be(self.regs.h, self.regs.l));
                self.regs.set_hl(w);
            },
            PairSp::SP => {
                self.regs.sp = winc16(self.regs.sp);
            },
        }
        self.regs.pc = pc + 1;
        Ok(())
    }

    /// Executes DCX: decrements a register pair by 1, or SP by 2, with
    /// wraparound; no flags are affected.
    fn do_dcx(&mut self, p: PairSp) -> (r: Result<(), ExecutionFault>)
        requires
            old(self).wf(),
            in_mem(old(self).regs.pc),
        ensures
            final(self).wf(),
            same_counters(*old(self), *final(self)),
            obeys_instr(*old(self), Instr::Dcx(p), *final(self), r),
    {
        proof {
            reveal(crate::machine::instr_spec);
        }
        let pc = self.regs.pc;
        match p {
            PairSp::BC => {
                let w = wsub16(self.cmb_be(self.regs.b, self.regs.c), 1);
                self.regs.set_bc(w);
            },
            PairSp::DE => {
                let w = wsub16(self.cmb_be(self.regs.d, self.regs.e), 1);
                self.regs.set_de(w);
            },
            PairSp::HL => {
                let w = wsub16(self.cmb_be(self.regs.h, self.regs.l), 1);
                self.regs.set_hl(w);
            },
            PairSp::SP => {
                self.regs.sp = wsub16(self.regs.sp, 2);
            },
        }
        self.regs.pc = pc + 1;
        Ok(())
    }

    /// CALL: pushes the address of the following instruction and transfers
    /// to the 16-bit immediate target. Reports a fault, touching nothing,
    /// if the stack cells lie outside the address space.
    pub fn nm_call(&mut self) -> (r: Result<(), ExecutionFault>)
        requires
            old(self).wf(),
            old(self).model().imm2_ok(),
        ensures
            final(self).wf(),
            same_counters(*old(self), *final(self)),
            push_ok(old(self).model()) ==> r == Ok::<(), ExecutionFault>(()) && final(self).model()
                == ({
                let m2 = push_word(
                    old(self).model(),
                    crate::bits::hi_byte((old(self).regs.pc + 3) as u16),
                    crate::bits::lo_byte((old(self).regs.pc + 3) as u16),
                );
                m2.with_regs(Registers { pc: old(self).model().imm_word(), ..m2.regs })
            }),
            !push_ok(old(self).model()) ==> r == Err::<(), ExecutionFault>(
                ExecutionFault::AddressOutOfRange,
            ) && final(self).model() == old(self).model(),
    {
        let pc = self.regs.pc;
        let lo_t = self.memory[(pc + 1) as usize];
        let hi_t = self.memory[(pc + 2) as usize];
        let target = combine_le(lo_t, hi_t);
        let ret_addr = pc + 3;
        let hi = high_of(ret_addr);
        let lo = low_of(ret_addr);
        match self.push_regs(hi, lo) {
            Ok(()) => {},
            Err(f) => {
                return Err(f);
            },
        }
        self.regs.pc = target;
        Ok(())
    }

    /// Executes RRC: rotates the accumulator right one bit; the carry flag
    /// receives the bit rotated out, which also enters the vacated high bit.
    fn do_rrc(&mut self) -> (r: Result<(), ExecutionFault>)
        requires
            old(self).wf(),
            in_mem(old(self).regs.pc),
        ensures
            final(self).wf(),
            same_counters(*old(self), *final(self)),
            obeys_instr(*old(self), Instr::Rrc, *final(self), r),
    {
        proof {
            reveal(crate::machine::instr_spec);
        }
        let pc = self.regs.pc;
        let a = self.regs.a;
        self.regs.a = ((a & 1) << 7) | (a >> 1);
        self.flags.carry = (a & 1) == 1;
        self.regs.pc = pc + 1;
        Ok(())
    }

    /// Executes JMP or a conditional jump: transfers to the immediate target
    /// when the condition holds, otherwise falls through.
    fn do_jmp(&mut self, c: Cond) -> (r: Result<(), ExecutionFault>)
        requires
            old(self).wf(),
            in_mem(old(self).regs.pc),
        ensures
            final(self).wf(),
            same_counters(*old(self), *final(self)),
            obeys_instr(*old(self), Instr::Jmp(c), *final(self), r),
    {
        proof {
            reveal(crate::machine::instr_spec);
        }
        let pc = self.regs.pc;
        if pc >= MEM_TOP - 2 {
            return Err(ExecutionFault::AddressOutOfRange);
        }
        if cond_eval(c, &self.flags) {
            self.jmp_immediate();
        } else {
            self.regs.pc = pc + 3;
        }
        Ok(())
    }

    /// Executes CALL or a conditional call: when the condition holds, pushes
    /// the address of the following instruction and transfers; otherwise
    /// falls through.
    fn do_call(&mut self, c: Cond) -> (r: Result<(), ExecutionFault>)
        requires
            old(self).wf(),
            in_mem(old(self).regs.pc),
        ensures
            final(self).wf(),
            same_counters(*old(self), *final(self)),
            obeys_instr(*old(self), Instr::Call(c), *final(self), r),
    {
        proof {
            reveal(crate::machine::instr_spec);
        }
        let pc = self.regs.pc;
        if pc >= MEM_TOP - 2 {
            return Err(ExecutionFault::AddressOutOfRange);
        }
        if cond_eval(c, &self.flags) {
            self.nm_call()
        } else {
            self.regs.pc = pc + 3;
            Ok(())
        }
    }

    /// Executes RET or a conditional return: when the condition holds, pops
    /// the return address into the program counter; otherwise falls through.
    fn do_ret(&mut self, c: Cond) -> (r: Result<(), ExecutionFault>)
        requires
            old(self).wf(),
            in_mem(old(self).regs.pc),
        ensures
            final(self).wf(),
            same_counters(*old(self), *final(self)),
            obeys_instr(*old(self), Instr::Ret(c), *final(self), r),
    {
        proof {
            reveal(crate::machine::instr_spec);
        }
        let pc = self.regs.pc;
        if cond_eval(c, &self.flags) {
            self.ret()
        } else {
            self.regs.pc = pc + 1;
            Ok(())
        }
    }

    /// Executes PUSH of a register pair: high cell at SP-1, low cell at
    /// SP-2.
    fn do_push(&mut self, p: Pair) -> (r: Result<(), ExecutionFault>)
        requires
            old(self).wf(),
            in_mem(old(self).regs.pc),
        ensures
            final(self).wf(),
            same_counters(*old(self), *final(self)),
            obeys_instr(*old(self), Instr::Push(p), *final(self), r),
    {
        proof {
            reveal(crate::machine::instr_spec);
        }
        let pc = self.regs.pc;
        let hi: u8;
        let lo: u8;
        match p {
            Pair::BC => {
                hi = self.regs.b;
                lo = self.regs.c;
            },
            Pair::DE => {
                hi = self.regs.d;
                lo = self.regs.e;
            },
            Pair::HL => {
                hi = self.regs.h;
                lo = self.regs.l;
            },
        }
        proof {
            crate::bits::lemma_word_split(hi, lo);
        }
        match self.push_regs(hi, lo) {
            Ok(()) => {},
            Err(f) => {
                return Err(f);
            },
        }
        self.regs.pc = pc + 1;
        Ok(())
    }

    /// Executes PUSH PSW: the accumulator at SP-1 and the packed status word
    /// at SP-2.
    fn do_push_psw(&mut self) -> (r: Result<(), ExecutionFault>)
        requires
            old(self).wf(),
            in_mem(old(self).regs.pc),
        ensures
            final(self).wf(),
            same_counters(*old(self), *final(self)),
            obeys_instr(*old(self), Instr::PushPsw, *final(self), r),
    {
        proof {
            reveal(crate::machine::instr_spec);
        }
        let pc = self.regs.pc;
        let hi = self.regs.a;
        let lo = self.flags.pack_psw();
        match self.push_regs(hi, lo) {
            Ok(()) => {},
            Err(f) => {
                return Err(f);
            },
        }
        self.regs.pc = pc + 1;
        Ok(())
    }

    /// Executes POP of a register pair.
    fn do_pop(&mut self, p: Pair) -> (r: Result<(), ExecutionFault>)
        requires
            old(self).wf(),
            in_mem(old(self).regs.pc),
        ensures
            final(self).wf(),
            same_counters(*old(self), *final(self)),
            obeys_instr(*old(self), Instr::Pop(p), *final(self), r),
    {
        proof {
            reveal(crate::machine::instr_spec);
        }
        let pc = self.regs.pc;
        let res = match p {
            Pair::BC => self.pop_into_bc(),
            Pair::DE => self.pop_into_de(),
            Pair::HL => self.pop_into_hl(),
        };
        match res {
            Ok(()) => {},
            Err(f) => {
                return Err(f);
            },
        }
        self.regs.pc = pc + 1;
        Ok(())
    }

    /// Executes POP PSW: the accumulator from SP+1 and the five flags
    /// unpacked from the status word at SP.
    fn do_pop_psw(&mut self) -> (r: Result<(), ExecutionFault>)
        requires
            old(self).wf(),
            in_mem(old(self).regs.pc),
        ensures
            final(self).wf(),
            same_counters(*old(self), *final(self)),
            obeys_instr(*old(self), Instr::PopPsw, *final(self), r),
    {
        proof {
            reveal(crate::machine::instr_spec);
        }
        let pc = self.regs.pc;
        let (a_v, psw) = match self.pop_bytes() {
            Ok(pair) => pair,
            Err(f) => {
                return Err(f);
            },
        };
        self.flags = Flags::unpack_psw(psw);
        self.regs.a = a_v;
        self.regs.pc = pc + 1;
        Ok(())
    }

    /// Executes XCHG: swaps HL and DE as a pair-for-pair swap.
    fn do_xchg(&mut self) -> (r: Result<(), ExecutionFault>)
        requires
            old(self).wf(),
            in_mem(old(self).regs.pc),
        ensures
            final(self).wf(),
            same_counters(*old(self), *final(self)),
            obeys_instr(*old(self), Instr::Xchg, *final(self), r),
    {
        proof {
            reveal(crate::machine::instr_spec);
        }
        let pc = self.regs.pc;
        let t1 = self.regs.h;
        self.regs.h = self.regs.d;
        self.regs.d = t1;
        let t2 = self.regs.l;
        self.regs.l = self.regs.e;
        self.regs.e = t2;
        self.regs.pc = pc + 1;
        Ok(())
    }

    /// Executes OUT: delegates the port number and the accumulator to the
    /// port device. A port the device does not implement is reported as an
    /// unimplemented operation, touching nothing.
    fn do_out(&mut self, op: u8) -> (r: Result<(), ExecutionFault>)
        requires
            old(self).wf(),
            in_mem(old(self).regs.pc),
            op == old(self).memory@[old(self).regs.pc as int],
        ensures
            final(self).wf(),
            same_counters(*old(self), *final(self)),
            obeys_instr(*old(self), Instr::Out, *final(self), r),
    {
        proof {
            reveal(crate::machine::instr_spec);
        }
        let pc = self.regs.pc;
        if pc >= MEM_TOP - 1 {
            return Err(ExecutionFault::AddressOutOfRange);
        }
        let port = self.memory[(pc + 1) as usize];
        if crate::io::IO::out_port_supported(port) {
            let a = self.regs.a;
            self.io.cpu_write(port, a);
            self.regs.pc = pc + 2;
            Ok(())
        } else {
            Err(ExecutionFault::UnimplementedOpcode(op, pc))
        }
    }

    /// Executes IN: reads the port into the accumulator. A port the device
    /// does not implement is reported as an unimplemented operation,
    /// touching nothing.
    fn do_in(&mut self, op: u8) -> (r: Result<(), ExecutionFault>)
        requires
            old(self).wf(),
            in_mem(old(self).regs.pc),
            op == old(self).memory@[old(self).regs.pc as int],
        ensures
            final(self).wf(),
            same_counters(*old(self), *final(self)),
            obeys_instr(*old(self), Instr::In, *final(self), r),
    {
        proof {
            reveal(crate::machine::instr_spec);
        }
        let pc = self.regs.pc;
        if pc >= MEM_TOP - 1 {
            return Err(ExecutionFault::AddressOutOfRange);
        }
        let port = self.memory[(pc + 1) as usize];
        if crate::io::IO::in_port_supported(port) {
            let v = self.io.cpu_read(port);
            self.regs.a = v;
            self.regs.pc = pc + 2;
            Ok(())
        } else {
            Err(ExecutionFault::UnimplementedOpcode(op, pc))
        }
    }

    /// Executes NOP: only the program counter moves.
    fn do_nop(&mut self) -> (r: Result<(), ExecutionFault>)
        requires
            old(self).wf(),
            in_mem(old(self).regs.pc),
        ensures
            final(self).wf(),
            same_counters(*old(self), *final(self)),
            obeys_instr(*old(self), Instr::Nop, *final(self), r),
    {
        proof {
            reveal(crate::machine::instr_spec);
        }
        self.regs.pc = self.regs.pc + 1;
        Ok(())
    }

    /// Executes STC: sets the carry flag.
    fn do_stc(&mut self) -> (r: Result<(), ExecutionFault>)
        requires
            old(self).wf(),
            in_mem(old(self).regs.pc),
        ensures
            final(self).wf(),
            same_counters(*old(self), *final(self)),
            obeys_instr(*old(self), Instr::Stc, *final(self), r),
    {
        proof {
            reveal(crate::machine::instr_spec);
        }
        self.flags.carry = true;
        self.regs.pc = self.regs.pc + 1;
        Ok(())
    }

    /// Executes CMC: toggles the carry flag.
    fn do_cmc(&mut self) -> (r: Result<(), ExecutionFault>)
        requires
            old(self).wf(),
            in_mem(old(self).regs.pc),
        ensures
            final(self).wf(),
            same_counters(*old(self), *final(self)),
            obeys_instr(*old(self), Instr::Cmc, *final(self), r),
    {
        proof {
            reveal(crate::machine::instr_spec);
        }
        self.flags.carry = !self.flags.carry;
        self.regs.pc = self.regs.pc + 1;
        Ok(())
    }

    /// Executes CMA: complements every bit of the accumulator; no flags are
    /// affected.
    fn do_cma(&mut self) -> (r: Result<(), ExecutionFault>)
        requires
            old(self).wf(),
            in_mem(old(self).regs.pc),
        ensures
            final(self).wf(),
            same_counters(*old(self), *final(self)),
            obeys_instr(*old(self), Instr::Cma, *final(self), r),
    {
        proof {
            reveal(crate::machine::instr_spec);
        }
        self.regs.a = !self.regs.a;
        self.regs.pc = self.regs.pc + 1;
        Ok(())
    }

    /// Executes HLT: enters the halted state, terminal until an external
    /// reset.
    fn do_hlt(&mut self) -> (r: Result<(), ExecutionFault>)
        requires
            old(self).wf(),
            in_mem(old(self).regs.pc),
        ensures
            final(self).wf(),
            same_counters(*old(self), *final(self)),
            obeys_instr(*old(self), Instr::Hlt, *final(self), r),
    {
        proof {
            reveal(crate::machine::instr_spec);
        }
        self.hlted = true;
        self.regs.pc = self.regs.pc + 1;
        Ok(())
    }

    /// Dispatches one decoded instruction to its semantics.
    #[verifier::rlimit(100)]
    #[verifier::spinoff_prover]
    fn exec_instr(&mut self, i: Instr, op: u8) -> (r: Result<(), ExecutionFault>)
        requires
            old(self).wf(),
            in_mem(old(self).regs.pc),
            op == old(self).memory@[old(self).regs.pc as int],
        ensures
            final(self).wf(),
            same_counters(*old(self), *final(self)),
            obeys_instr(*old(self), i, *final(self), r),
    {
        match i {
            Instr::Nop => self.do_nop(),
            Instr::Mov(dst, src) => self.do_mov(dst, src),
            Instr::Lxi(p) => self.do_lxi(p),
            Instr::Sta => self.do_sta(),
            Instr::Lda => self.do_lda(),
            Instr::Shld => self.do_shld(),
            Instr::Lhld => self.do_lhld(),
            Instr::Stax(p) => self.do_stax(p),
            Instr::Ldax(p) => self.do_ldax(p),
            Instr::Dad(p) => self.do_dad(p),
            Instr::Alu(k, src) => self.do_alu(k, src),
            Instr::Inr(loc) => self.do_inr(loc),
            Instr::Dcr(loc) => self.do_dcr(loc),
            Instr::Inx(p) => self.do_inx(p),
            Instr::Dcx(p) => self.do_dcx(p),
            Instr::Rrc => self.do_rrc(),
            Instr::Jmp(c) => self.do_jmp(c),
            Instr::Call(c) => self.do_call(c),
            Instr::Ret(c) => self.do_ret(c),
            Instr::Push(p) => self.do_push(p),
            Instr::Pop(p) => self.do_pop(p),
            Instr::PushPsw => self.do_push_psw(),
            Instr::PopPsw => self.do_pop_psw(),
            Instr::Xchg => self.do_xchg(),
            Instr::Stc => self.do_stc(),
            Instr::Cmc => self.do_cmc(),
            Instr::Cma => self.do_cma(),
            Instr::Hlt => self.do_hlt(),
            Instr::Out => self.do_out(op),
            Instr::In => self.do_in(op),
        }
    }

    /// Executes one instruction: fails with `Halted` after HLT, fetches and
    /// decodes the opcode at the program counter, performs the instruction,
    /// and returns its cycle cost from the fixed per-opcode table. On any
    /// fault the processor state is exactly as before the call.
    pub fn cycle(&mut self) -> (r: Result<u8, ExecutionFault>)
        requires
            old(self).wf(),
            old(self).instructions < usize::MAX,
        ensures
            final(self).wf(),
            final(self).subcycles == old(self).subcycles,
            (match cycle_spec(old(self).model()) {
                Outcome::Fault(f) => r == Err::<u8, ExecutionFault>(f) && final(self).model()
                    == old(self).model() && final(self).instructions == old(self).instructions,
                Outcome::Next(m2) => r == Ok::<u8, ExecutionFault>(
                    cycles_spec(old(self).memory@[old(self).regs.pc as int]),
                ) && final(self).model() == m2 && final(self).instructions == old(
                    self,
                ).instructions + 1,
            }),
    {
        if self.hlted {
            return Err(ExecutionFault::Halted);
        }
        let pc = self.regs.pc;
        if pc >= MEM_TOP {
            return Err(ExecutionFault::AddressOutOfRange);
        }
        let op = self.memory[pc as usize];
        let instr = match decode(op) {
            None => {
                return Err(ExecutionFault::UnimplementedOpcode(op, pc));
            },
            Some(x) => x,
        };
        let cyc = cycles_of(op);
        match self.exec_instr(instr, op) {
            Ok(()) => {
                self.instructions = self.instructions + 1;
                Ok(cyc)
            },
            Err(f) => Err(f),
        }
    }

    /// Paces execution by cycle cost: counts calls until the count passes
    /// the cycle cost of the opcode at the program counter, then executes
    /// that one instruction and starts counting afresh.
    pub fn cycle_d(&mut self) -> (r: Result<(), ExecutionFault>)
        requires
            old(self).wf(),
            old(self).instructions < usize::MAX,
        ensures
            final(self).wf(),
            (if !in_mem(old(self).regs.pc) {
                &&& r == Err::<(), ExecutionFault>(ExecutionFault::AddressOutOfRange)
                &&& final(self).model() == old(self).model()
                &&& same_counters(*old(self), *final(self))
            } else if old(self).subcycles > cycles_spec(
                old(self).memory@[old(self).regs.pc as int],
            ) {
                &&& final(self).subcycles == 0
                &&& (match cycle_spec(old(self).model()) {
                    Outcome::Fault(f) => {
                        &&& r == Err::<(), ExecutionFault>(f)
                        &&& final(self).model() == old(self).model()
                        &&& final(self).instructions == old(self).instructions
                    },
                    Outcome::Next(m2) => {
                        &&& r == Ok::<(), ExecutionFault>(())
                        &&& final(self).model() == m2
                        &&& final(self).instructions == old(self).instructions + 1
                    },
                })
            } else {
                &&& r == Ok::<(), ExecutionFault>(())
                &&& final(self).model() == old(self).model()
                &&& final(self).instructions == old(self).instructions
                &&& final(self).subcycles == old(self).subcycles + 1
            }),
    {
        let pc = self.regs.pc;
        if pc >= MEM_TOP {
            return Err(ExecutionFault::AddressOutOfRange);
        }
        let op = self.memory[pc as usize];
        let threshold = cycles_of(op);
        if self.subcycles > threshold {
            let res = self.cycle();
            self.subcycles = 0;
            match res {
                Ok(_) => Ok(()),
                Err(f) => Err(f),
            }
        } else {
            proof {
                crate::isa::lemma_cycles_bound(op);
            }
            self.subcycles = self.subcycles + 1;
            Ok(())
        }
    }

    /// Returns the processor to its power-on state without touching memory
    /// or the port device: the only transition out of the halted state.
    pub fn reset(&mut self)
        requires
            old(self).wf(),
        ensures
            final(self).wf(),
            final(self).regs == Registers::spec_default(),
            final(self).flags == Flags::spec_default(),
            !final(self).hlted,
            final(self).instructions == 0,
            final(self).subcycles == 0,
            final(self).memory@ == old(self).memory@,
            final(self).io == old(self).io,
    {
        self.regs = Registers { pc: 0, a: 0, b: 0, c: 0, d: 0, e: 0, h: 0, l: 0, sp: 0 };
        self.flags = Flags {
            sign: false,
            zero: false,
            parity: false,
            carry: false,
            aux_carry: false,
        };
        self.hlted = false;
        self.instructions = 0;
        self.subcycles = 0;
    }
}

} // verus!
