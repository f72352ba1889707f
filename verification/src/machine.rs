//! The mathematical model of the processor: the register file, an abstract
//! machine state over a byte sequence, and the specification-level transition
//! that one executed instruction performs on it.

use crate::bits::add8;
use crate::bits::aux_add;
use crate::bits::aux_sub;
use crate::bits::hi_byte;
use crate::bits::lo_byte;
use crate::bits::sub8;
use crate::bits::word_from;
use crate::bits::wrap_inc16;
use crate::bits::wrap_sub16;
use crate::flags::Flags;
use crate::flags::spec_pack_psw;
use crate::flags::spec_parity;
use crate::flags::spec_sign;
use crate::flags::spec_unpack_psw;
use crate::flags::spec_zero;
use crate::io::IO;
use crate::io::spec_in_port_supported;
use crate::io::spec_io_write;
use crate::io::spec_out_port_supported;
use crate::isa::AluKind;
use crate::isa::Cond;
use crate::isa::Instr;
use crate::isa::Loc;
use crate::isa::Operand;
use crate::isa::Pair;
use crate::isa::PairSp;
use crate::isa::Reg8;
use crate::isa::decode_spec;
use vstd::prelude::*;

verus! {

/// The number of bytes in the address space.
pub const MEM_SIZE: usize = 0xFA00;

/// The first 16-bit address past the end of the address space.
pub const MEM_TOP: u16 = 0xFA00;

/// The register file: seven independent 8-bit cells and the two 16-bit
/// cells. B/C, D/E and H/L are logical pairs assembled on demand; no
/// separate 16-bit storage exists for them.
#[derive(Clone, Copy, PartialEq, Eq, Structural, Debug)]
pub struct Registers {
    pub pc: u16,
    pub a: u8,
    pub b: u8,
    pub c: u8,
    pub d: u8,
    pub e: u8,
    pub h: u8,
    pub l: u8,
    pub sp: u16,
}

/// A fault reported by the execution engine.
#[derive(Clone, Copy, PartialEq, Eq, Structural, Debug)]
pub enum ExecutionFault {
    /// The processor was stepped while in the halted state.
    Halted,
    /// The opcode byte, at the given address, has no semantics in this
    /// instruction subset.
    UnimplementedOpcode(u8, u16),
    /// A computed memory or stack address falls outside the address space.
    AddressOutOfRange,
}

/// An error reported when loading a program image.
#[derive(Clone, Copy, PartialEq, Eq, Structural, Debug)]
pub enum LoadError {
    /// The supplied image is empty.
    EmptyProgram,
    /// The image would not fit in the address space at the supplied origin.
    ProgramOutOfRange,
}

/// The abstract machine state an instruction transforms.
#[verifier::ext_equal]
pub struct Machine {
    pub regs: Registers,
    pub flags: Flags,
    pub mem: Seq<u8>,
    pub io: IO,
    pub halted: bool,
}

/// The outcome of attempting one instruction: a fault, or the machine state
/// after it.
pub enum Outcome {
    Fault(ExecutionFault),
    Next(Machine),
}

impl Registers {
    /// All registers cleared.
    pub open spec fn spec_default() -> Registers {
        Registers { pc: 0, a: 0, b: 0, c: 0, d: 0, e: 0, h: 0, l: 0, sp: 0 }
    }

    /// Writes the BC pair: B takes the high byte, C the low byte.
    pub fn set_bc(&mut self, value: u16)
        ensures
            *final(self) == pair_set(*old(self), Pair::BC, value),
    {
        self.c = (value % 256) as u8;
        self.b = (value / 256) as u8;
    }

    /// Writes the DE pair: D takes the high byte, E the low byte.
    pub fn set_de(&mut self, value: u16)
        ensures
            *final(self) == pair_set(*old(self), Pair::DE, value),
    {
        self.e = (value % 256) as u8;
        self.d = (value / 256) as u8;
    }

    /// Writes the HL pair: H takes the high byte, L the low byte.
    pub fn set_hl(&mut self, value: u16)
        ensures
            *final(self) == pair_set(*old(self), Pair::HL, value),
    {
        self.l = (value % 256) as u8;
        self.h = (value / 256) as u8;
    }
}

/// The value of an 8-bit register.
pub open spec fn reg_get(r: Registers, n: Reg8) -> u8 {
    match n {
        Reg8::A => r.a,
        Reg8::B => r.b,
        Reg8::C => r.c,
        Reg8::D => r.d,
        Reg8::E => r.e,
        Reg8::H => r.h,
        Reg8::L => r.l,
    }
}

/// The register file with one 8-bit register replaced.
pub open spec fn reg_set(r: Registers, n: Reg8, v: u8) -> Registers {
    match n {
        Reg8::A => Registers { a: v, ..r },
        Reg8::B => Registers { b: v, ..r },
        Reg8::C => Registers { c: v, ..r },
        Reg8::D => Registers { d: v, ..r },
        Reg8::E => Registers { e: v, ..r },
        Reg8::H => Registers { h: v, ..r },
        Reg8::L => Registers { l: v, ..r },
    }
}

/// A register pair read as a 16-bit word, the first cell as high byte.
pub open spec fn pair_get(r: Registers, p: Pair) -> u16 {
    match p {
        Pair::BC => word_from(r.b, r.c),
        Pair::DE => word_from(r.d, r.e),
        Pair::HL => word_from(r.h, r.l),
    }
}

/// A register pair written from a 16-bit word: exactly its two constituent
/// 8-bit cells change.
pub open spec fn pair_set(r: Registers, p: Pair, v: u16) -> Registers {
    match p {
        Pair::BC => Registers { b: hi_byte(v), c: lo_byte(v), ..r },
        Pair::DE => Registers { d: hi_byte(v), e: lo_byte(v), ..r },
        Pair::HL => Registers { h: hi_byte(v), l: lo_byte(v), ..r },
    }
}

/// A register pair or the stack pointer read as a 16-bit word.
pub open spec fn rp_get(r: Registers, p: PairSp) -> u16 {
    match p {
        PairSp::BC => word_from(r.b, r.c),
        PairSp::DE => word_from(r.d, r.e),
        PairSp::HL => word_from(r.h, r.l),
        PairSp::SP => r.sp,
    }
}

/// A register pair or the stack pointer written from a 16-bit word.
pub open spec fn rp_set(r: Registers, p: PairSp, v: u16) -> Registers {
    match p {
        PairSp::BC => Registers { b: hi_byte(v), c: lo_byte(v), ..r },
        PairSp::DE => Registers { d: hi_byte(v), e: lo_byte(v), ..r },
        PairSp::HL => Registers { h: hi_byte(v), l: lo_byte(v), ..r },
        PairSp::SP => Registers { sp: v, ..r },
    }
}

/// The memory address held in the HL pair.
pub open spec fn hl_addr(r: Registers) -> u16 {
    word_from(r.h, r.l)
}

/// Whether an address lies inside the address space.
pub open spec fn in_mem(a: u16) -> bool {
    a < MEM_TOP
}

/// Whether a branch condition holds of the current flags.
pub open spec fn cond_holds(c: Cond, f: Flags) -> bool {
    match c {
        Cond::Always => true,
        Cond::NotZero => !f.zero,
        Cond::Zero => f.zero,
        Cond::NotCarry => !f.carry,
        Cond::Carry => f.carry,
        Cond::ParityOdd => !f.parity,
        Cond::ParityEven => f.parity,
        Cond::Plus => !f.sign,
        Cond::Minus => f.sign,
    }
}

impl Machine {
    /// Well-formedness: the memory has exactly the size of the address
    /// space.
    pub open spec fn wf(self) -> bool {
        self.mem.len() == MEM_SIZE
    }

    /// The machine with one byte of memory replaced.
    pub open spec fn store(self, a: u16, v: u8) -> Machine {
        Machine { mem: self.mem.update(a as int, v), ..self }
    }

    /// The machine with a replaced register file.
    pub open spec fn with_regs(self, r: Registers) -> Machine {
        Machine { regs: r, ..self }
    }

    /// The machine with replaced flags.
    pub open spec fn with_flags(self, f: Flags) -> Machine {
        Machine { flags: f, ..self }
    }

    /// The machine with the program counter advanced past an instruction of
    /// the given length.
    pub open spec fn adv(self, len: u16) -> Machine
        recommends
            self.regs.pc + len <= 0xffff,
    {
        Machine { regs: Registers { pc: (self.regs.pc + len) as u16, ..self.regs }, ..self }
    }

    /// Whether one immediate byte can be fetched after the opcode.
    pub open spec fn imm1_ok(self) -> bool {
        self.regs.pc + 1 < MEM_TOP
    }

    /// The immediate byte after the opcode.
    pub open spec fn imm1(self) -> u8 {
        self.mem[self.regs.pc + 1]
    }

    /// Whether two immediate bytes can be fetched after the opcode.
    pub open spec fn imm2_ok(self) -> bool {
        self.regs.pc + 2 < MEM_TOP
    }

    /// The 16-bit immediate after the opcode, encoded low byte first.
    pub open spec fn imm_word(self) -> u16 {
        word_from(self.mem[self.regs.pc + 2], self.mem[self.regs.pc + 1])
    }
}

/// The flags after an arithmetic result: sign, zero and parity from the
/// result byte, with the given carry and auxiliary carry.
pub open spec fn arith_flags(result: u8, carry: bool, aux: bool) -> Flags {
    Flags {
        sign: spec_sign(result),
        zero: spec_zero(result),
        parity: spec_parity(result),
        carry,
        aux_carry: aux,
    }
}

/// The flags after a logical operation: sign, zero and parity from the
/// result byte; carry and auxiliary carry are defined as false.
pub open spec fn logic_flags(result: u8) -> Flags {
    arith_flags(result, false, false)
}

/// The machine after applying one ALU operation to the accumulator with the
/// fetched operand byte `v`. The program counter is not touched here.
pub open spec fn alu_apply(m: Machine, k: AluKind, v: u8) -> Machine {
    let a = m.regs.a;
    let cin: u8 = if m.flags.carry {
        1
    } else {
        0
    };
    match k {
        AluKind::Add => {
            let r = add8(a, v, 0);
            m.with_regs(reg_set(m.regs, Reg8::A, r)).with_flags(
                arith_flags(r, a + v > 255, aux_add(a, v, 0)),
            )
        },
        AluKind::Adc => {
            let r = add8(a, v, cin);
            m.with_regs(reg_set(m.regs, Reg8::A, r)).with_flags(
                arith_flags(r, a + v + cin > 255, aux_add(a, v, cin)),
            )
        },
        AluKind::Sub => {
            let r = sub8(a, v, 0);
            m.with_regs(reg_set(m.regs, Reg8::A, r)).with_flags(
                arith_flags(r, a < v, aux_sub(a, v, 0)),
            )
        },
        AluKind::Sbb => {
            let r = sub8(a, v, cin);
            m.with_regs(reg_set(m.regs, Reg8::A, r)).with_flags(
                arith_flags(r, a < v + cin, aux_sub(a, v, cin)),
            )
        },
        AluKind::Ana => {
            let r = a & v;
            m.with_regs(reg_set(m.regs, Reg8::A, r)).with_flags(logic_flags(r))
        },
        AluKind::Xra => {
            let r = a ^ v;
            m.with_regs(reg_set(m.regs, Reg8::A, r)).with_flags(logic_flags(r))
        },
        AluKind::Ora => {
            let r = a | v;
            m.with_regs(reg_set(m.regs, Reg8::A, r)).with_flags(logic_flags(r))
        },
        AluKind::Cmp => {
            let r = sub8(a, v, 0);
            m.with_flags(arith_flags(r, a < v, aux_sub(a, v, 0)))
        },
    }
}

/// The flags after incrementing the byte `v`: sign, zero, parity and
/// auxiliary carry of the result; the carry flag is never touched.
pub open spec fn inr_flags(f: Flags, v: u8) -> Flags {
    let r = add8(v, 1, 0);
    Flags {
        sign: spec_sign(r),
        zero: spec_zero(r),
        parity: spec_parity(r),
        aux_carry: aux_add(v, 1, 0),
        ..f
    }
}

/// The flags after decrementing the byte `v`: sign, zero, parity and
/// auxiliary borrow of the result; the carry flag is never touched.
pub open spec fn dcr_flags(f: Flags, v: u8) -> Flags {
    let r = sub8(v, 1, 0);
    Flags {
        sign: spec_sign(r),
        zero: spec_zero(r),
        parity: spec_parity(r),
        aux_carry: aux_sub(v, 1, 0),
        ..f
    }
}

/// The machine after writing `v` to an 8-bit destination, advancing the
/// program counter by `len`; faults if the destination is the memory cell
/// addressed by HL and that address is out of range.
pub open spec fn write_loc(m: Machine, dst: Loc, v: u8, len: u16) -> Outcome {
    match dst {
        Loc::Reg(rd) => Outcome::Next(m.with_regs(reg_set(m.regs, rd, v)).adv(len)),
        Loc::Mem => if in_mem(hl_addr(m.regs)) {
            Outcome::Next(m.store(hl_addr(m.regs), v).adv(len))
        } else {
            Outcome::Fault(ExecutionFault::AddressOutOfRange)
        },
    }
}

/// Whether the two stack cells a push would write lie in the address space.
pub open spec fn push_ok(m: Machine) -> bool {
    in_mem(wrap_sub16(m.regs.sp, 1)) && in_mem(wrap_sub16(m.regs.sp, 2))
}

/// The machine after pushing a 16-bit word onto the stack: high byte at
/// SP-1, low byte at SP-2, stack pointer lowered by 2. The program counter
/// is not touched here.
pub open spec fn push_word(m: Machine, hi: u8, lo: u8) -> Machine
    recommends
        push_ok(m),
{
    let a1 = wrap_sub16(m.regs.sp, 1);
    let a2 = wrap_sub16(m.regs.sp, 2);
    m.store(a1, hi).store(a2, lo).with_regs(Registers { sp: a2, ..m.regs })
}

/// The machine after pushing a 16-bit word onto the stack and moving the
/// program counter to `new_pc`; faults if either stack cell is out of range.
pub open spec fn push_step(m: Machine, hi: u8, lo: u8, new_pc: u16) -> Outcome {
    if push_ok(m) {
        let m2 = push_word(m, hi, lo);
        Outcome::Next(m2.with_regs(Registers { pc: new_pc, ..m2.regs }))
    } else {
        Outcome::Fault(ExecutionFault::AddressOutOfRange)
    }
}

/// Whether the two stack cells a pop would read lie in the address space.
pub open spec fn pop_ok(m: Machine) -> bool {
    in_mem(m.regs.sp) && in_mem(wrap_inc16(m.regs.sp))
}

/// The 16-bit word on top of the stack: low byte at SP, high byte at SP+1.
pub open spec fn pop_value(m: Machine) -> u16
    recommends
        pop_ok(m),
{
    word_from(m.mem[wrap_inc16(m.regs.sp) as int], m.mem[m.regs.sp as int])
}

/// The specification of one decoded instruction: the faults it can raise and
/// the machine state it otherwise produces. Marked opaque so that callers
/// reason about one instruction at a time through `reveal`.
#[verifier::opaque]
pub open spec fn instr_spec(m: Machine, i: Instr) -> Outcome {
    let rg = m.regs;
    let pc = rg.pc;
    match i {
        Instr::Nop => Outcome::Next(m.adv(1)),
        Instr::Mov(dst, src) => {
            match src {
                Operand::Reg(rs) => write_loc(m, dst, reg_get(rg, rs), 1),
                Operand::Mem => if in_mem(hl_addr(rg)) {
                    write_loc(m, dst, m.mem[hl_addr(rg) as int], 1)
                } else {
                    Outcome::Fault(ExecutionFault::AddressOutOfRange)
                },
                Operand::Imm => if m.imm1_ok() {
                    write_loc(m, dst, m.imm1(), 2)
                } else {
                    Outcome::Fault(ExecutionFault::AddressOutOfRange)
                },
            }
        },
        Instr::Lxi(p) => if m.imm2_ok() {
            Outcome::Next(m.with_regs(rp_set(rg, p, m.imm_word())).adv(3))
        } else {
            Outcome::Fault(ExecutionFault::AddressOutOfRange)
        },
        Instr::Sta => if m.imm2_ok() {
            if in_mem(m.imm_word()) {
                Outcome::Next(m.store(m.imm_word(), rg.a).adv(3))
            } else {
                Outcome::Fault(ExecutionFault::AddressOutOfRange)
            }
        } else {
            Outcome::Fault(ExecutionFault::AddressOutOfRange)
        },
        Instr::Lda => if m.imm2_ok() {
            if in_mem(m.imm_word()) {
                Outcome::Next(
                    m.with_regs(reg_set(rg, Reg8::A, m.mem[m.imm_word() as int])).adv(3),
                )
            } else {
                Outcome::Fault(ExecutionFault::AddressOutOfRange)
            }
        } else {
            Outcome::Fault(ExecutionFault::AddressOutOfRange)
        },
        Instr::Shld => if m.imm2_ok() {
            let a0 = m.imm_word();
            let a1 = wrap_inc16(a0);
            if in_mem(a0) && in_mem(a1) {
                Outcome::Next(m.store(a0, rg.l).store(a1, rg.h).adv(3))
            } else {
                Outcome::Fault(ExecutionFault::AddressOutOfRange)
            }
        } else {
            Outcome::Fault(ExecutionFault::AddressOutOfRange)
        },
        Instr::Lhld => if m.imm2_ok() {
            let a0 = m.imm_word();
            let a1 = wrap_inc16(a0);
            if in_mem(a0) && in_mem(a1) {
                Outcome::Next(
                    m.with_regs(
                        Registers { l: m.mem[a0 as int], h: m.mem[a1 as int], ..rg },
                    ).adv(3),
                )
            } else {
                Outcome::Fault(ExecutionFault::AddressOutOfRange)
            }
        } else {
            Outcome::Fault(ExecutionFault::AddressOutOfRange)
        },
        Instr::Stax(p) => if in_mem(pair_get(rg, p)) {
            Outcome::Next(m.store(pair_get(rg, p), rg.a).adv(1))
        } else {
            Outcome::Fault(ExecutionFault::AddressOutOfRange)
        },
        Instr::Ldax(p) => if in_mem(pair_get(rg, p)) {
            Outcome::Next(
                m.with_regs(reg_set(rg, Reg8::A, m.mem[pair_get(rg, p) as int])).adv(1),
            )
        } else {
            Outcome::Fault(ExecutionFault::AddressOutOfRange)
        },
        Instr::Dad(p) => {
            let sum = hl_addr(rg) + pair_get(rg, p);
            let carry = sum > 0xffff;
            let nhl: u16 = if sum > 0xffff {
                (sum - 0x10000) as u16
            } else {
                sum as u16
            };
            Outcome::Next(
                m.with_regs(Registers { h: hi_byte(nhl), l: lo_byte(nhl), ..rg }).with_flags(
                    Flags { carry, ..m.flags },
                ).adv(1),
            )
        },
        Instr::Alu(k, src) => {
            match src {
                Operand::Reg(rs) => Outcome::Next(alu_apply(m, k, reg_get(rg, rs)).adv(1)),
                Operand::Mem => if in_mem(hl_addr(rg)) {
                    Outcome::Next(alu_apply(m, k, m.mem[hl_addr(rg) as int]).adv(1))
                } else {
                    Outcome::Fault(ExecutionFault::AddressOutOfRange)
                },
                Operand::Imm => if m.imm1_ok() {
                    Outcome::Next(alu_apply(m, k, m.imm1()).adv(2))
                } else {
                    Outcome::Fault(ExecutionFault::AddressOutOfRange)
                },
            }
        },
        Instr::Inr(loc) => {
            match loc {
                Loc::Reg(rd) => {
                    let v = reg_get(rg, rd);
                    Outcome::Next(
                        m.with_regs(reg_set(rg, rd, add8(v, 1, 0))).with_flags(
                            inr_flags(m.flags, v),
                        ).adv(1),
                    )
                },
                Loc::Mem => if in_mem(hl_addr(rg)) {
                    let v = m.mem[hl_addr(rg) as int];
                    Outcome::Next(
                        m.store(hl_addr(rg), add8(v, 1, 0)).with_flags(inr_flags(m.flags, v)).adv(
                            1,
                        ),
                    )
                } else {
                    Outcome::Fault(ExecutionFault::AddressOutOfRange)
                },
            }
        },
        Instr::Dcr(loc) => {
            match loc {
                Loc::Reg(rd) => {
                    let v = reg_get(rg, rd);
                    Outcome::Next(
                        m.with_regs(reg_set(rg, rd, sub8(v, 1, 0))).with_flags(
                            dcr_flags(m.flags, v),
                        ).adv(1),
                    )
                },
                Loc::Mem => if in_mem(hl_addr(rg)) {
                    let v = m.mem[hl_addr(rg) as int];
                    Outcome::Next(
                        m.store(hl_addr(rg), sub8(v, 1, 0)).with_flags(dcr_flags(m.flags, v)).adv(
                            1,
                        ),
                    )
                } else {
                    Outcome::Fault(ExecutionFault::AddressOutOfRange)
                },
            }
        },
        Instr::Inx(p) => Outcome::Next(m.with_regs(rp_set(rg, p, wrap_inc16(rp_get(rg, p)))).adv(1)),
        Instr::Dcx(p) => {
            let d: u16 = if p is SP {
                2
            } else {
                1
            };
            Outcome::Next(m.with_regs(rp_set(rg, p, wrap_sub16(rp_get(rg, p), d))).adv(1))
        },
        Instr::Rrc => {
            let a = rg.a;
            Outcome::Next(
                m.with_regs(reg_set(rg, Reg8::A, ((a & 1) << 7) | (a >> 1))).with_flags(
                    Flags { carry: a & 1 == 1, ..m.flags },
                ).adv(1),
            )
        },
        Instr::Jmp(c) => if m.imm2_ok() {
            if cond_holds(c, m.flags) {
                Outcome::Next(m.with_regs(Registers { pc: m.imm_word(), ..rg }))
            } else {
                Outcome::Next(m.adv(3))
            }
        } else {
            Outcome::Fault(ExecutionFault::AddressOutOfRange)
        },
        Instr::Call(c) => if m.imm2_ok() {
            if cond_holds(c, m.flags) {
                let ret = (pc + 3) as u16;
                push_step(m, hi_byte(ret), lo_byte(ret), m.imm_word())
            } else {
                Outcome::Next(m.adv(3))
            }
        } else {
            Outcome::Fault(ExecutionFault::AddressOutOfRange)
        },
        Instr::Ret(c) => if cond_holds(c, m.flags) {
            if pop_ok(m) {
                Outcome::Next(
                    m.with_regs(Registers { pc: pop_value(m), sp: (rg.sp + 2) as u16, ..rg }),
                )
            } else {
                Outcome::Fault(ExecutionFault::AddressOutOfRange)
            }
        } else {
            Outcome::Next(m.adv(1))
        },
        Instr::Push(p) => push_step(
            m,
            hi_byte(pair_get(rg, p)),
            lo_byte(pair_get(rg, p)),
            (pc + 1) as u16,
        ),
        Instr::PushPsw => push_step(m, rg.a, spec_pack_psw(m.flags), (pc + 1) as u16),
        Instr::Pop(p) => if pop_ok(m) {
            Outcome::Next(
                m.with_regs(
                    Registers {
                        sp: (rg.sp + 2) as u16,
                        pc: (pc + 1) as u16,
                        ..pair_set(rg, p, pop_value(m))
                    },
                ),
            )
        } else {
            Outcome::Fault(ExecutionFault::AddressOutOfRange)
        },
        Instr::PopPsw => if pop_ok(m) {
            Outcome::Next(
                m.with_regs(
                    Registers {
                        a: m.mem[wrap_inc16(rg.sp) as int],
                        sp: (rg.sp + 2) as u16,
                        pc: (pc + 1) as u16,
                        ..rg
                    },
                ).with_flags(spec_unpack_psw(m.mem[rg.sp as int])),
            )
        } else {
            Outcome::Fault(ExecutionFault::AddressOutOfRange)
        },
        Instr::Xchg => Outcome::Next(
            m.with_regs(Registers { h: rg.d, d: rg.h, l: rg.e, e: rg.l, ..rg }).adv(1),
        ),
        Instr::Stc => Outcome::Next(m.with_flags(Flags { carry: true, ..m.flags }).adv(1)),
        Instr::Cmc => Outcome::Next(m.with_flags(Flags { carry: !m.flags.carry, ..m.flags }).adv(1)),
        Instr::Cma => Outcome::Next(m.with_regs(reg_set(rg, Reg8::A, !rg.a)).adv(1)),
        Instr::Hlt => Outcome::Next(Machine { halted: true, ..m.adv(1) }),
        Instr::Out => if m.imm1_ok() {
            let port = m.imm1();
            if spec_out_port_supported(port) {
                Outcome::Next(Machine { io: spec_io_write(m.io, port, rg.a), ..m.adv(2) })
            } else {
                Outcome::Fault(ExecutionFault::UnimplementedOpcode(m.mem[pc as int], pc))
            }
        } else {
            Outcome::Fault(ExecutionFault::AddressOutOfRange)
        },
        Instr::In => if m.imm1_ok() {
            if spec_in_port_supported(m.imm1()) {
                Outcome::Next(m.with_regs(reg_set(rg, Reg8::A, m.io.read_1)).adv(2))
            } else {
                Outcome::Fault(ExecutionFault::UnimplementedOpcode(m.mem[pc as int], pc))
            }
        } else {
            Outcome::Fault(ExecutionFault::AddressOutOfRange)
        },
    }
}

/// The specification of one full step: halt check, opcode fetch, decode and
/// instruction execution.
pub open spec fn cycle_spec(m: Machine) -> Outcome {
    if m.halted {
        Outcome::Fault(ExecutionFault::Halted)
    } else if !in_mem(m.regs.pc) {
        Outcome::Fault(ExecutionFault::AddressOutOfRange)
    } else {
        let op = m.mem[m.regs.pc as int];
        match decode_spec(op) {
            Option::None => Outcome::Fault(ExecutionFault::UnimplementedOpcode(op, m.regs.pc)),
            Option::Some(i) => instr_spec(m, i),
        }
    }
}

} // verus!
