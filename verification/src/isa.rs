//! The instruction set: a data-driven decode table mapping each opcode byte
//! to a tagged instruction descriptor, and the fixed per-opcode cycle-cost
//! table.

use vstd::prelude::*;

verus! {

/// An 8-bit register name.
#[derive(Clone, Copy, PartialEq, Eq, Structural, Debug)]
pub enum Reg8 {
    A,
    B,
    C,
    D,
    E,
    H,
    L,
}

/// A writable 8-bit location: a register, or the memory cell addressed by
/// the HL pair.
#[derive(Clone, Copy, PartialEq, Eq, Structural, Debug)]
pub enum Loc {
    Reg(Reg8),
    Mem,
}

/// An 8-bit operand source: a register, the memory cell addressed by HL, or
/// an immediate byte following the opcode.
#[derive(Clone, Copy, PartialEq, Eq, Structural, Debug)]
pub enum Operand {
    Reg(Reg8),
    Mem,
    Imm,
}

/// A register pair.
#[derive(Clone, Copy, PartialEq, Eq, Structural, Debug)]
pub enum Pair {
    BC,
    DE,
    HL,
}

/// A register pair or the stack pointer, as addressed by 16-bit
/// register instructions.
#[derive(Clone, Copy, PartialEq, Eq, Structural, Debug)]
pub enum PairSp {
    BC,
    DE,
    HL,
    SP,
}

/// An eight-function ALU operation over the accumulator.
#[derive(Clone, Copy, PartialEq, Eq, Structural, Debug)]
pub enum AluKind {
    Add,
    Adc,
    Sub,
    Sbb,
    Ana,
    Xra,
    Ora,
    Cmp,
}

/// The condition a branch instruction tests: one of the five flags at a
/// required polarity, or no condition at all.
#[derive(Clone, Copy, PartialEq, Eq, Structural, Debug)]
pub enum Cond {
    Always,
    NotZero,
    Zero,
    NotCarry,
    Carry,
    ParityOdd,
    ParityEven,
    Plus,
    Minus,
}

/// A decoded instruction descriptor.
#[derive(Clone, Copy, PartialEq, Eq, Structural, Debug)]
pub enum Instr {
    Nop,
    Mov(Loc, Operand),
    Lxi(PairSp),
    Sta,
    Lda,
    Shld,
    Lhld,
    Stax(Pair),
    Ldax(Pair),
    Dad(Pair),
    Alu(AluKind, Operand),
    Inr(Loc),
    Dcr(Loc),
    Inx(PairSp),
    Dcx(PairSp),
    Rrc,
    Jmp(Cond),
    Call(Cond),
    Ret(Cond),
    Push(Pair),
    Pop(Pair),
    PushPsw,
    PopPsw,
    Xchg,
    Stc,
    Cmc,
    Cma,
    Hlt,
    Out,
    In,
}

/// The number of bytes an instruction occupies: the opcode byte plus its
/// immediate bytes.
pub open spec fn instr_len(i: Instr) -> u16 {
    match i {
        Instr::Mov(_, Operand::Imm) => 2,
        Instr::Alu(_, Operand::Imm) => 2,
        Instr::Lxi(_) => 3,
        Instr::Sta => 3,
        Instr::Lda => 3,
        Instr::Shld => 3,
        Instr::Lhld => 3,
        Instr::Jmp(_) => 3,
        Instr::Call(_) => 3,
        Instr::Out => 2,
        Instr::In => 2,
        _ => 1,
    }
}

/// The instruction an opcode byte decodes to, or `None` for an opcode this
/// instruction subset leaves unimplemented.
pub open spec fn decode_spec(op: u8) -> Option<Instr> {
    match op {
        0x00 => Some(Instr::Nop),
        0x01 => Some(Instr::Lxi(PairSp::BC)),
        0x02 => Some(Instr::Stax(Pair::BC)),
        0x03 => Some(Instr::Inx(PairSp::BC)),
        0x04 => Some(Instr::Inr(Loc::Reg(Reg8::B))),
        0x05 => Some(Instr::Dcr(Loc::Reg(Reg8::B))),
        0x06 => Some(Instr::Mov(Loc::Reg(Reg8::B), Operand::Imm)),
        0x09 => Some(Instr::Dad(Pair::BC)),
        0x0a => Some(Instr::Ldax(Pair::BC)),
        0x0b => Some(Instr::Dcx(PairSp::BC)),
        0x0c => Some(Instr::Inr(Loc::Reg(Reg8::C))),
        0x0d => Some(Instr::Dcr(Loc::Reg(Reg8::C))),
        0x0e => Some(Instr::Mov(Loc::Reg(Reg8::C), Operand::Imm)),
        0x0f => Some(Instr::Rrc),
        0x11 => Some(Instr::Lxi(PairSp::DE)),
        0x12 => Some(Instr::Stax(Pair::DE)),
        0x13 => Some(Instr::Inx(PairSp::DE)),
        0x14 => Some(Instr::Inr(Loc::Reg(Reg8::D))),
        0x15 => Some(Instr::Dcr(Loc::Reg(Reg8::D))),
        0x16 => Some(Instr::Mov(Loc::Reg(Reg8::D), Operand::Imm)),
        0x19 => Some(Instr::Dad(Pair::DE)),
        0x1a => Some(Instr::Ldax(Pair::DE)),
        0x1b => Some(Instr::Dcx(PairSp::DE)),
        0x1c => Some(Instr::Inr(Loc::Reg(Reg8::E))),
        0x1d => Some(Instr::Dcr(Loc::Reg(Reg8::E))),
        0x1e => Some(Instr::Mov(Loc::Reg(Reg8::E), Operand::Imm)),
        0x21 => Some(Instr::Lxi(PairSp::HL)),
        0x22 => Some(Instr::Shld),
        0x23 => Some(Instr::Inx(PairSp::HL)),
        0x24 => Some(Instr::Inr(Loc::Reg(Reg8::H))),
        0x25 => Some(Instr::Dcr(Loc::Reg(Reg8::H))),
        0x26 => Some(Instr::Mov(Loc::Reg(Reg8::H), Operand::Imm)),
        0x29 => Some(Instr::Dad(Pair::HL)),
        0x2a => Some(Instr::Lhld),
        0x2b => Some(Instr::Dcx(PairSp::HL)),
        0x2c => Some(Instr::Inr(Loc::Reg(Reg8::L))),
        0x2d => Some(Instr::Dcr(Loc::Reg(Reg8::L))),
        0x2e => Some(Instr::Mov(Loc::Reg(Reg8::L), Operand::Imm)),
        0x2f => Some(Instr::Cma),
        0x31 => Some(Instr::Lxi(PairSp::SP)),
        0x32 => Some(Instr::Sta),
        0x33 => Some(Instr::Inx(PairSp::SP)),
        0x34 => Some(Instr::Inr(Loc::Mem)),
        0x35 => Some(Instr::Dcr(Loc::Mem)),
        0x36 => Some(Instr::Mov(Loc::Mem, Operand::Imm)),
        0x37 => Some(Instr::Stc),
        0x3a => Some(Instr::Lda),
        0x3b => Some(Instr::Dcx(PairSp::SP)),
        0x3c => Some(Instr::Inr(Loc::Reg(Reg8::A))),
        0x3d => Some(Instr::Dcr(Loc::Reg(Reg8::A))),
        0x3e => Some(Instr::Mov(Loc::Reg(Reg8::A), Operand::Imm)),
        0x3f => Some(Instr::Cmc),
        0x40 => Some(Instr::Mov(Loc::Reg(Reg8::B), Operand::Reg(Reg8::B))),
        0x41 => Some(Instr::Mov(Loc::Reg(Reg8::B), Operand::Reg(Reg8::C))),
        0x42 => Some(Instr::Mov(Loc::Reg(Reg8::B), Operand::Reg(Reg8::D))),
        0x43 => Some(Instr::Mov(Loc::Reg(Reg8::B), Operand::Reg(Reg8::E))),
        0x44 => Some(Instr::Mov(Loc::Reg(Reg8::B), Operand::Reg(Reg8::H))),
        0x45 => Some(Instr::Mov(Loc::Reg(Reg8::B), Operand::Reg(Reg8::L))),
        0x46 => Some(Instr::Mov(Loc::Reg(Reg8::B), Operand::Mem)),
        0x47 => Some(Instr::Mov(Loc::Reg(Reg8::B), Operand::Reg(Reg8::A))),
        0x48 => Some(Instr::Mov(Loc::Reg(Reg8::C), Operand::Reg(Reg8::B))),
        0x49 => Some(Instr::Mov(Loc::Reg(Reg8::C), Operand::Reg(Reg8::C))),
        0x4a => Some(Instr::Mov(Loc::Reg(Reg8::C), Operand::Reg(Reg8::D))),
        0x4b => Some(Instr::Mov(Loc::Reg(Reg8::C), Operand::Reg(Reg8::E))),
        0x4c => Some(Instr::Mov(Loc::Reg(Reg8::C), Operand::Reg(Reg8::H))),
        0x4d => Some(Instr::Mov(Loc::Reg(Reg8::C), Operand::Reg(Reg8::L))),
        0x4e => Some(Instr::Mov(Loc::Reg(Reg8::C), Operand::Mem)),
        0x4f => Some(Instr::Mov(Loc::Reg(Reg8::C), Operand::Reg(Reg8::A))),
        0x50 => Some(Instr::Mov(Loc::Reg(Reg8::D), Operand::Reg(Reg8::B))),
        0x51 => Some(Instr::Mov(Loc::Reg(Reg8::D), Operand::Reg(Reg8::C))),
        0x52 => Some(Instr::Mov(Loc::Reg(Reg8::D), Operand::Reg(Reg8::D))),
        0x53 => Some(Instr::Mov(Loc::Reg(Reg8::D), Operand::Reg(Reg8::E))),
        0x54 => Some(Instr::Mov(Loc::Reg(Reg8::D), Operand::Reg(Reg8::H))),
        0x55 => Some(Instr::Mov(Loc::Reg(Reg8::D), Operand::Reg(Reg8::L))),
        0x56 => Some(Instr::Mov(Loc::Reg(Reg8::D), Operand::Mem)),
        0x57 => Some(Instr::Mov(Loc::Reg(Reg8::D), Operand::Reg(Reg8::A))),
        0x58 => Some(Instr::Mov(Loc::Reg(Reg8::E), Operand::Reg(Reg8::B))),
        0x59 => Some(Instr::Mov(Loc::Reg(Reg8::E), Operand::Reg(Reg8::C))),
        0x5a => Some(Instr::Mov(Loc::Reg(Reg8::E), Operand::Reg(Reg8::D))),
        0x5b => Some(Instr::Mov(Loc::Reg(Reg8::E), Operand::Reg(Reg8::E))),
        0x5c => Some(Instr::Mov(Loc::Reg(Reg8::E), Operand::Reg(Reg8::H))),
        0x5d => Some(Instr::Mov(Loc::Reg(Reg8::E), Operand::Reg(Reg8::L))),
        0x5e => Some(Instr::Mov(Loc::Reg(Reg8::E), Operand::Mem)),
        0x5f => Some(Instr::Mov(Loc::Reg(Reg8::E), Operand::Reg(Reg8::A))),
        0x60 => Some(Instr::Mov(Loc::Reg(Reg8::H), Operand::Reg(Reg8::B))),
        0x61 => Some(Instr::Mov(Loc::Reg(Reg8::H), Operand::Reg(Reg8::C))),
        0x62 => Some(Instr::Mov(Loc::Reg(Reg8::H), Operand::Reg(Reg8::D))),
        0x63 => Some(Instr::Mov(Loc::Reg(Reg8::H), Operand::Reg(Reg8::E))),
        0x64 => Some(Instr::Mov(Loc::Reg(Reg8::H), Operand::Reg(Reg8::H))),
        0x65 => Some(Instr::Mov(Loc::Reg(Reg8::H), Operand::Reg(Reg8::L))),
        0x66 => Some(Instr::Mov(Loc::Reg(Reg8::H), Operand::Mem)),
        0x67 => Some(Instr::Mov(Loc::Reg(Reg8::H), Operand::Reg(Reg8::A))),
        0x68 => Some(Instr::Mov(Loc::Reg(Reg8::L), Operand::Reg(Reg8::B))),
        0x69 => Some(Instr::Mov(Loc::Reg(Reg8::L), Operand::Reg(Reg8::C))),
        0x6a => Some(Instr::Mov(Loc::Reg(Reg8::L), Operand::Reg(Reg8::D))),
        0x6b => Some(Instr::Mov(Loc::Reg(Reg8::L), Operand::Reg(Reg8::E))),
        0x6c => Some(Instr::Mov(Loc::Reg(Reg8::L), Operand::Reg(Reg8::H))),
        0x6d => Some(Instr::Mov(Loc::Reg(Reg8::L), Operand::Reg(Reg8::L))),
        0x6e => Some(Instr::Mov(Loc::Reg(Reg8::L), Operand::Mem)),
        0x6f => Some(Instr::Mov(Loc::Reg(Reg8::L), Operand::Reg(Reg8::A))),
        0x70 => Some(Instr::Mov(Loc::Mem, Operand::Reg(Reg8::B))),
        0x71 => Some(Instr::Mov(Loc::Mem, Operand::Reg(Reg8::C))),
        0x72 => Some(Instr::Mov(Loc::Mem, Operand::Reg(Reg8::D))),
        0x73 => Some(Instr::Mov(Loc::Mem, Operand::Reg(Reg8::E))),
        0x74 => Some(Instr::Mov(Loc::Mem, Operand::Reg(Reg8::H))),
        0x75 => Some(Instr::Mov(Loc::Mem, Operand::Reg(Reg8::L))),
        0x76 => Some(Instr::Hlt),
        0x77 => Some(Instr::Mov(Loc::Mem, Operand::Reg(Reg8::A))),
        0x78 => Some(Instr::Mov(Loc::Reg(Reg8::A), Operand::Reg(Reg8::B))),
        0x79 => Some(Instr::Mov(Loc::Reg(Reg8::A), Operand::Reg(Reg8::C))),
        0x7a => Some(Instr::Mov(Loc::Reg(Reg8::A), Operand::Reg(Reg8::D))),
        0x7b => Some(Instr::Mov(Loc::Reg(Reg8::A), Operand::Reg(Reg8::E))),
        0x7c => Some(Instr::Mov(Loc::Reg(Reg8::A), Operand::Reg(Reg8::H))),
        0x7d => Some(Instr::Mov(Loc::Reg(Reg8::A), Operand::Reg(Reg8::L))),
        0x7e => Some(Instr::Mov(Loc::Reg(Reg8::A), Operand::Mem)),
        0x7f => Some(Instr::Mov(Loc::Reg(Reg8::A), Operand::Reg(Reg8::A))),
        0x80 => Some(Instr::Alu(AluKind::Add, Operand::Reg(Reg8::B))),
        0x81 => Some(Instr::Alu(AluKind::Add, Operand::Reg(Reg8::C))),
        0x82 => Some(Instr::Alu(AluKind::Add, Operand::Reg(Reg8::D))),
        0x83 => Some(Instr::Alu(AluKind::Add, Operand::Reg(Reg8::E))),
        0x84 => Some(Instr::Alu(AluKind::Add, Operand::Reg(Reg8::H))),
        0x85 => Some(Instr::Alu(AluKind::Add, Operand::Reg(Reg8::L))),
        0x86 => Some(Instr::Alu(AluKind::Add, Operand::Mem)),
        0x87 => Some(Instr::Alu(AluKind::Add, Operand::Reg(Reg8::A))),
        0x88 => Some(Instr::Alu(AluKind::Adc, Operand::Reg(Reg8::B))),
        0x89 => Some(Instr::Alu(AluKind::Adc, Operand::Reg(Reg8::C))),
        0x8a => Some(Instr::Alu(AluKind::Adc, Operand::Reg(Reg8::D))),
        0x8b => Some(Instr::Alu(AluKind::Adc, Operand::Reg(Reg8::E))),
        0x8c => Some(Instr::Alu(AluKind::Adc, Operand::Reg(Reg8::H))),
        0x8d => Some(Instr::Alu(AluKind::Adc, Operand::Reg(Reg8::L))),
        0x8e => Some(Instr::Alu(AluKind::Adc, Operand::Mem)),
        0x8f => Some(Instr::Alu(AluKind::Adc, Operand::Reg(Reg8::A))),
        0x90 => Some(Instr::Alu(AluKind::Sub, Operand::Reg(Reg8::B))),
        0x91 => Some(Instr::Alu(AluKind::Sub, Operand::Reg(Reg8::C))),
        0x92 => Some(Instr::Alu(AluKind::Sub, Operand::Reg(Reg8::D))),
        0x93 => Some(Instr::Alu(AluKind::Sub, Operand::Reg(Reg8::E))),
        0x94 => Some(Instr::Alu(AluKind::Sub, Operand::Reg(Reg8::H))),
        0x95 => Some(Instr::Alu(AluKind::Sub, Operand::Reg(Reg8::L))),
        0x96 => Some(Instr::Alu(AluKind::Sub, Operand::Mem)),
        0x97 => Some(Instr::Alu(AluKind::Sub, Operand::Reg(Reg8::A))),
        0x98 => Some(Instr::Alu(AluKind::Sbb, Operand::Reg(Reg8::B))),
        0x99 => Some(Instr::Alu(AluKind::Sbb, Operand::Reg(Reg8::C))),
        0x9a => Some(Instr::Alu(AluKind::Sbb, Operand::Reg(Reg8::D))),
        0x9b => Some(Instr::Alu(AluKind::Sbb, Operand::Reg(Reg8::E))),
        0x9c => Some(Instr::Alu(AluKind::Sbb, Operand::Reg(Reg8::H))),
        0x9d => Some(Instr::Alu(AluKind::Sbb, Operand::Reg(Reg8::L))),
        0x9e => Some(Instr::Alu(AluKind::Sbb, Operand::Mem)),
        0x9f => Some(Instr::Alu(AluKind::Sbb, Operand::Reg(Reg8::A))),
        0xa0 => Some(Instr::Alu(AluKind::Ana, Operand::Reg(Reg8::B))),
        0xa1 => Some(Instr::Alu(AluKind::Ana, Operand::Reg(Reg8::C))),
        0xa2 => Some(Instr::Alu(AluKind::Ana, Operand::Reg(Reg8::D))),
        0xa3 => Some(Instr::Alu(AluKind::Ana, Operand::Reg(Reg8::E))),
        0xa4 => Some(Instr::Alu(AluKind::Ana, Operand::Reg(Reg8::H))),
        0xa5 => Some(Instr::Alu(AluKind::Ana, Operand::Reg(Reg8::L))),
        0xa6 => Some(Instr::Alu(AluKind::Ana, Operand::Mem)),
        0xa7 => Some(Instr::Alu(AluKind::Ana, Operand::Reg(Reg8::A))),
        0xa8 => Some(Instr::Alu(AluKind::Xra, Operand::Reg(Reg8::B))),
        0xa9 => Some(Instr::Alu(AluKind::Xra, Operand::Reg(Reg8::C))),
        0xaa => Some(Instr::Alu(AluKind::Xra, Operand::Reg(Reg8::D))),
        0xab => Some(Instr::Alu(AluKind::Xra, Operand::Reg(Reg8::E))),
        0xac => Some(Instr::Alu(AluKind::Xra, Operand::Reg(Reg8::H))),
        0xad => Some(Instr::Alu(AluKind::Xra, Operand::Reg(Reg8::L))),
        0xae => Some(Instr::Alu(AluKind::Xra, Operand::Mem)),
        0xaf => Some(Instr::Alu(AluKind::Xra, Operand::Reg(Reg8::A))),
        0xb0 => Some(Instr::Alu(AluKind::Ora, Operand::Reg(Reg8::B))),
        0xb1 => Some(Instr::Alu(AluKind::Ora, Operand::Reg(Reg8::C))),
        0xb2 => Some(Instr::Alu(AluKind::Ora, Operand::Reg(Reg8::D))),
        0xb3 => Some(Instr::Alu(AluKind::Ora, Operand::Reg(Reg8::E))),
        0xb4 => Some(Instr::Alu(AluKind::Ora, Operand::Reg(Reg8::H))),
        0xb5 => Some(Instr::Alu(AluKind::Ora, Operand::Reg(Reg8::L))),
        0xb6 => Some(Instr::Alu(AluKind::Ora, Operand::Mem)),
        0xb7 => Some(Instr::Alu(AluKind::Ora, Operand::Reg(Reg8::A))),
        0xb8 => Some(Instr::Alu(AluKind::Cmp, Operand::Reg(Reg8::B))),
        0xb9 => Some(Instr::Alu(AluKind::Cmp, Operand::Reg(Reg8::C))),
        0xba => Some(Instr::Alu(AluKind::Cmp, Operand::Reg(Reg8::D))),
        0xbb => Some(Instr::Alu(AluKind::Cmp, Operand::Reg(Reg8::E))),
        0xbc => Some(Instr::Alu(AluKind::Cmp, Operand::Reg(Reg8::H))),
        0xbd => Some(Instr::Alu(AluKind::Cmp, Operand::Reg(Reg8::L))),
        0xbe => Some(Instr::Alu(AluKind::Cmp, Operand::Mem)),
        0xbf => Some(Instr::Alu(AluKind::Cmp, Operand::Reg(Reg8::A))),
        0xc0 => Some(Instr::Ret(Cond::NotZero)),
        0xc1 => Some(Instr::Pop(Pair::BC)),
        0xc2 => Some(Instr::Jmp(Cond::NotZero)),
        0xc3 => Some(Instr::Jmp(Cond::Always)),
        0xc4 => Some(Instr::Call(Cond::NotZero)),
        0xc5 => Some(Instr::Push(Pair::BC)),
        0xc6 => Some(Instr::Alu(AluKind::Add, Operand::Imm)),
        0xc8 => Some(Instr::Ret(Cond::Zero)),
        0xc9 => Some(Instr::Ret(Cond::Always)),
        0xca => Some(Instr::Jmp(Cond::Zero)),
        0xcc => Some(Instr::Call(Cond::Zero)),
        0xcd => Some(Instr::Call(Cond::Always)),
        0xce => Some(Instr::Alu(AluKind::Adc, Operand::Imm)),
        0xd0 => Some(Instr::Ret(Cond::NotCarry)),
        0xd1 => Some(Instr::Pop(Pair::DE)),
        0xd2 => Some(Instr::Jmp(Cond::NotCarry)),
        0xd3 => Some(Instr::Out),
        0xd4 => Some(Instr::Call(Cond::NotCarry)),
        0xd5 => Some(Instr::Push(Pair::DE)),
        0xd6 => Some(Instr::Alu(AluKind::Sub, Operand::Imm)),
        0xd8 => Some(Instr::Ret(Cond::Carry)),
        0xda => Some(Instr::Jmp(Cond::Carry)),
        0xdb => Some(Instr::In),
        0xdc => Some(Instr::Call(Cond::Carry)),
        0xde => Some(Instr::Alu(AluKind::Sbb, Operand::Imm)),
        0xe0 => Some(Instr::Ret(Cond::ParityOdd)),
        0xe1 => Some(Instr::Pop(Pair::HL)),
        0xe2 => Some(Instr::Jmp(Cond::ParityOdd)),
        0xe4 => Some(Instr::Call(Cond::ParityOdd)),
        0xe5 => Some(Instr::Push(Pair::HL)),
        0xe6 => Some(Instr::Alu(AluKind::Ana, Operand::Imm)),
        0xe8 => Some(Instr::Ret(Cond::ParityEven)),
        0xea => Some(Instr::Jmp(Cond::ParityEven)),
        0xeb => Some(Instr::Xchg),
        0xec => Some(Instr::Call(Cond::ParityEven)),
        0xee => Some(Instr::Alu(AluKind::Xra, Operand::Imm)),
        0xf0 => Some(Instr::Ret(Cond::Plus)),
        0xf1 => Some(Instr::PopPsw),
        0xf2 => Some(Instr::Jmp(Cond::Plus)),
        0xf4 => Some(Instr::Call(Cond::Plus)),
        0xf5 => Some(Instr::PushPsw),
        0xf6 => Some(Instr::Alu(AluKind::Ora, Operand::Imm)),
        0xf8 => Some(Instr::Ret(Cond::Minus)),
        0xfa => Some(Instr::Jmp(Cond::Minus)),
        0xfb => Some(Instr::Nop),
        0xfc => Some(Instr::Call(Cond::Minus)),
        0xfe => Some(Instr::Alu(AluKind::Cmp, Operand::Imm)),
        _ => None,
    }
}

/// Decodes an opcode byte to its instruction descriptor, or reports that the
/// opcode is unimplemented.
pub fn decode(op: u8) -> (r: Option<Instr>)
    ensures
        r == decode_spec(op),
{
    match op {
        0x00 => Some(Instr::Nop),
        0x01 => Some(Instr::Lxi(PairSp::BC)),
        0x02 => Some(Instr::Stax(Pair::BC)),
        0x03 => Some(Instr::Inx(PairSp::BC)),
        0x04 => Some(Instr::Inr(Loc::Reg(Reg8::B))),
        0x05 => Some(Instr::Dcr(Loc::Reg(Reg8::B))),
        0x06 => Some(Instr::Mov(Loc::Reg(Reg8::B), Operand::Imm)),
        0x09 => Some(Instr::Dad(Pair::BC)),
        0x0a => Some(Instr::Ldax(Pair::BC)),
        0x0b => Some(Instr::Dcx(PairSp::BC)),
        0x0c => Some(Instr::Inr(Loc::Reg(Reg8::C))),
        0x0d => Some(Instr::Dcr(Loc::Reg(Reg8::C))),
        0x0e => Some(Instr::Mov(Loc::Reg(Reg8::C), Operand::Imm)),
        0x0f => Some(Instr::Rrc),
        0x11 => Some(Instr::Lxi(PairSp::DE)),
        0x12 => Some(Instr::Stax(Pair::DE)),
        0x13 => Some(Instr::Inx(PairSp::DE)),
        0x14 => Some(Instr::Inr(Loc::Reg(Reg8::D))),
        0x15 => Some(Instr::Dcr(Loc::Reg(Reg8::D))),
        0x16 => Some(Instr::Mov(Loc::Reg(Reg8::D), Operand::Imm)),
        0x19 => Some(Instr::Dad(Pair::DE)),
        0x1a => Some(Instr::Ldax(Pair::DE)),
        0x1b => Some(Instr::Dcx(PairSp::DE)),
        0x1c => Some(Instr::Inr(Loc::Reg(Reg8::E))),
        0x1d => Some(Instr::Dcr(Loc::Reg(Reg8::E))),
        0x1e => Some(Instr::Mov(Loc::Reg(Reg8::E), Operand::Imm)),
        0x21 => Some(Instr::Lxi(PairSp::HL)),
        0x22 => Some(Instr::Shld),
        0x23 => Some(Instr::Inx(PairSp::HL)),
        0x24 => Some(Instr::Inr(Loc::Reg(Reg8::H))),
        0x25 => Some(Instr::Dcr(Loc::Reg(Reg8::H))),
        0x26 => Some(Instr::Mov(Loc::Reg(Reg8::H), Operand::Imm)),
        0x29 => Some(Instr::Dad(Pair::HL)),
        0x2a => Some(Instr::Lhld),
        0x2b => Some(Instr::Dcx(PairSp::HL)),
        0x2c => Some(Instr::Inr(Loc::Reg(Reg8::L))),
        0x2d => Some(Instr::Dcr(Loc::Reg(Reg8::L))),
        0x2e => Some(Instr::Mov(Loc::Reg(Reg8::L), Operand::Imm)),
        0x2f => Some(Instr::Cma),
        0x31 => Some(Instr::Lxi(PairSp::SP)),
        0x32 => Some(Instr::Sta),
        0x33 => Some(Instr::Inx(PairSp::SP)),
        0x34 => Some(Instr::Inr(Loc::Mem)),
        0x35 => Some(Instr::Dcr(Loc::Mem)),
        0x36 => Some(Instr::Mov(Loc::Mem, Operand::Imm)),
        0x37 => Some(Instr::Stc),
        0x3a => Some(Instr::Lda),
        0x3b => Some(Instr::Dcx(PairSp::SP)),
        0x3c => Some(Instr::Inr(Loc::Reg(Reg8::A))),
        0x3d => Some(Instr::Dcr(Loc::Reg(Reg8::A))),
        0x3e => Some(Instr::Mov(Loc::Reg(Reg8::A), Operand::Imm)),
        0x3f => Some(Instr::Cmc),
        0x40 => Some(Instr::Mov(Loc::Reg(Reg8::B), Operand::Reg(Reg8::B))),
        0x41 => Some(Instr::Mov(Loc::Reg(Reg8::B), Operand::Reg(Reg8::C))),
        0x42 => Some(Instr::Mov(Loc::Reg(Reg8::B), Operand::Reg(Reg8::D))),
        0x43 => Some(Instr::Mov(Loc::Reg(Reg8::B), Operand::Reg(Reg8::E))),
        0x44 => Some(Instr::Mov(Loc::Reg(Reg8::B), Operand::Reg(Reg8::H))),
        0x45 => Some(Instr::Mov(Loc::Reg(Reg8::B), Operand::Reg(Reg8::L))),
        0x46 => Some(Instr::Mov(Loc::Reg(Reg8::B), Operand::Mem)),
        0x47 => Some(Instr::Mov(Loc::Reg(Reg8::B), Operand::Reg(Reg8::A))),
        0x48 => Some(Instr::Mov(Loc::Reg(Reg8::C), Operand::Reg(Reg8::B))),
        0x49 => Some(Instr::Mov(Loc::Reg(Reg8::C), Operand::Reg(Reg8::C))),
        0x4a => Some(Instr::Mov(Loc::Reg(Reg8::C), Operand::Reg(Reg8::D))),
        0x4b => Some(Instr::Mov(Loc::Reg(Reg8::C), Operand::Reg(Reg8::E))),
        0x4c => Some(Instr::Mov(Loc::Reg(Reg8::C), Operand::Reg(Reg8::H))),
        0x4d => Some(Instr::Mov(Loc::Reg(Reg8::C), Operand::Reg(Reg8::L))),
        0x4e => Some(Instr::Mov(Loc::Reg(Reg8::C), Operand::Mem)),
        0x4f => Some(Instr::Mov(Loc::Reg(Reg8::C), Operand::Reg(Reg8::A))),
        0x50 => Some(Instr::Mov(Loc::Reg(Reg8::D), Operand::Reg(Reg8::B))),
        0x51 => Some(Instr::Mov(Loc::Reg(Reg8::D), Operand::Reg(Reg8::C))),
        0x52 => Some(Instr::Mov(Loc::Reg(Reg8::D), Operand::Reg(Reg8::D))),
        0x53 => Some(Instr::Mov(Loc::Reg(Reg8::D), Operand::Reg(Reg8::E))),
        0x54 => Some(Instr::Mov(Loc::Reg(Reg8::D), Operand::Reg(Reg8::H))),
        0x55 => Some(Instr::Mov(Loc::Reg(Reg8::D), Operand::Reg(Reg8::L))),
        0x56 => Some(Instr::Mov(Loc::Reg(Reg8::D), Operand::Mem)),
        0x57 => Some(Instr::Mov(Loc::Reg(Reg8::D), Operand::Reg(Reg8::A))),
        0x58 => Some(Instr::Mov(Loc::Reg(Reg8::E), Operand::Reg(Reg8::B))),
        0x59 => Some(Instr::Mov(Loc::Reg(Reg8::E), Operand::Reg(Reg8::C))),
        0x5a => Some(Instr::Mov(Loc::Reg(Reg8::E), Operand::Reg(Reg8::D))),
        0x5b => Some(Instr::Mov(Loc::Reg(Reg8::E), Operand::Reg(Reg8::E))),
        0x5c => Some(Instr::Mov(Loc::Reg(Reg8::E), Operand::Reg(Reg8::H))),
        0x5d => Some(Instr::Mov(Loc::Reg(Reg8::E), Operand::Reg(Reg8::L))),
        0x5e => Some(Instr::Mov(Loc::Reg(Reg8::E), Operand::Mem)),
        0x5f => Some(Instr::Mov(Loc::Reg(Reg8::E), Operand::Reg(Reg8::A))),
        0x60 => Some(Instr::Mov(Loc::Reg(Reg8::H), Operand::Reg(Reg8::B))),
        0x61 => Some(Instr::Mov(Loc::Reg(Reg8::H), Operand::Reg(Reg8::C))),
        0x62 => Some(Instr::Mov(Loc::Reg(Reg8::H), Operand::Reg(Reg8::D))),
        0x63 => Some(Instr::Mov(Loc::Reg(Reg8::H), Operand::Reg(Reg8::E))),
        0x64 => Some(Instr::Mov(Loc::Reg(Reg8::H), Operand::Reg(Reg8::H))),
        0x65 => Some(Instr::Mov(Loc::Reg(Reg8::H), Operand::Reg(Reg8::L))),
        0x66 => Some(Instr::Mov(Loc::Reg(Reg8::H), Operand::Mem)),
        0x67 => Some(Instr::Mov(Loc::Reg(Reg8::H), Operand::Reg(Reg8::A))),
        0x68 => Some(Instr::Mov(Loc::Reg(Reg8::L), Operand::Reg(Reg8::B))),
        0x69 => Some(Instr::Mov(Loc::Reg(Reg8::L), Operand::Reg(Reg8::C))),
        0x6a => Some(Instr::Mov(Loc::Reg(Reg8::L), Operand::Reg(Reg8::D))),
        0x6b => Some(Instr::Mov(Loc::Reg(Reg8::L), Operand::Reg(Reg8::E))),
        0x6c => Some(Instr::Mov(Loc::Reg(Reg8::L), Operand::Reg(Reg8::H))),
        0x6d => Some(Instr::Mov(Loc::Reg(Reg8::L), Operand::Reg(Reg8::L))),
        0x6e => Some(Instr::Mov(Loc::Reg(Reg8::L), Operand::Mem)),
        0x6f => Some(Instr::Mov(Loc::Reg(Reg8::L), Operand::Reg(Reg8::A))),
        0x70 => Some(Instr::Mov(Loc::Mem, Operand::Reg(Reg8::B))),
        0x71 => Some(Instr::Mov(Loc::Mem, Operand::Reg(Reg8::C))),
        0x72 => Some(Instr::Mov(Loc::Mem, Operand::Reg(Reg8::D))),
        0x73 => Some(Instr::Mov(Loc::Mem, Operand::Reg(Reg8::E))),
        0x74 => Some(Instr::Mov(Loc::Mem, Operand::Reg(Reg8::H))),
        0x75 => Some(Instr::Mov(Loc::Mem, Operand::Reg(Reg8::L))),
        0x76 => Some(Instr::Hlt),
        0x77 => Some(Instr::Mov(Loc::Mem, Operand::Reg(Reg8::A))),
        0x78 => Some(Instr::Mov(Loc::Reg(Reg8::A), Operand::Reg(Reg8::B))),
        0x79 => Some(Instr::Mov(Loc::Reg(Reg8::A), Operand::Reg(Reg8::C))),
        0x7a => Some(Instr::Mov(Loc::Reg(Reg8::A), Operand::Reg(Reg8::D))),
        0x7b => Some(Instr::Mov(Loc::Reg(Reg8::A), Operand::Reg(Reg8::E))),
        0x7c => Some(Instr::Mov(Loc::Reg(Reg8::A), Operand::Reg(Reg8::H))),
        0x7d => Some(Instr::Mov(Loc::Reg(Reg8::A), Operand::Reg(Reg8::L))),
        0x7e => Some(Instr::Mov(Loc::Reg(Reg8::A), Operand::Mem)),
        0x7f => Some(Instr::Mov(Loc::Reg(Reg8::A), Operand::Reg(Reg8::A))),
        0x80 => Some(Instr::Alu(AluKind::Add, Operand::Reg(Reg8::B))),
        0x81 => Some(Instr::Alu(AluKind::Add, Operand::Reg(Reg8::C))),
        0x82 => Some(Instr::Alu(AluKind::Add, Operand::Reg(Reg8::D))),
        0x83 => Some(Instr::Alu(AluKind::Add, Operand::Reg(Reg8::E))),
        0x84 => Some(Instr::Alu(AluKind::Add, Operand::Reg(Reg8::H))),
        0x85 => Some(Instr::Alu(AluKind::Add, Operand::Reg(Reg8::L))),
        0x86 => Some(Instr::Alu(AluKind::Add, Operand::Mem)),
        0x87 => Some(Instr::Alu(AluKind::Add, Operand::Reg(Reg8::A))),
        0x88 => Some(Instr::Alu(AluKind::Adc, Operand::Reg(Reg8::B))),
        0x89 => Some(Instr::Alu(AluKind::Adc, Operand::Reg(Reg8::C))),
        0x8a => Some(Instr::Alu(AluKind::Adc, Operand::Reg(Reg8::D))),
        0x8b => Some(Instr::Alu(AluKind::Adc, Operand::Reg(Reg8::E))),
        0x8c => Some(Instr::Alu(AluKind::Adc, Operand::Reg(Reg8::H))),
        0x8d => Some(Instr::Alu(AluKind::Adc, Operand::Reg(Reg8::L))),
        0x8e => Some(Instr::Alu(AluKind::Adc, Operand::Mem)),
        0x8f => Some(Instr::Alu(AluKind::Adc, Operand::Reg(Reg8::A))),
        0x90 => Some(Instr::Alu(AluKind::Sub, Operand::Reg(Reg8::B))),
        0x91 => Some(Instr::Alu(AluKind::Sub, Operand::Reg(Reg8::C))),
        0x92 => Some(Instr::Alu(AluKind::Sub, Operand::Reg(Reg8::D))),
        0x93 => Some(Instr::Alu(AluKind::Sub, Operand::Reg(Reg8::E))),
        0x94 => Some(Instr::Alu(AluKind::Sub, Operand::Reg(Reg8::H))),
        0x95 => Some(Instr::Alu(AluKind::Sub, Operand::Reg(Reg8::L))),
        0x96 => Some(Instr::Alu(AluKind::Sub, Operand::Mem)),
        0x97 => Some(Instr::Alu(AluKind::Sub, Operand::Reg(Reg8::A))),
        0x98 => Some(Instr::Alu(AluKind::Sbb, Operand::Reg(Reg8::B))),
        0x99 => Some(Instr::Alu(AluKind::Sbb, Operand::Reg(Reg8::C))),
        0x9a => Some(Instr::Alu(AluKind::Sbb, Operand::Reg(Reg8::D))),
        0x9b => Some(Instr::Alu(AluKind::Sbb, Operand::Reg(Reg8::E))),
        0x9c => Some(Instr::Alu(AluKind::Sbb, Operand::Reg(Reg8::H))),
        0x9d => Some(Instr::Alu(AluKind::Sbb, Operand::Reg(Reg8::L))),
        0x9e => Some(Instr::Alu(AluKind::Sbb, Operand::Mem)),
        0x9f => Some(Instr::Alu(AluKind::Sbb, Operand::Reg(Reg8::A))),
        0xa0 => Some(Instr::Alu(AluKind::Ana, Operand::Reg(Reg8::B))),
        0xa1 => Some(Instr::Alu(AluKind::Ana, Operand::Reg(Reg8::C))),
        0xa2 => Some(Instr::Alu(AluKind::Ana, Operand::Reg(Reg8::D))),
        0xa3 => Some(Instr::Alu(AluKind::Ana, Operand::Reg(Reg8::E))),
        0xa4 => Some(Instr::Alu(AluKind::Ana, Operand::Reg(Reg8::H))),
        0xa5 => Some(Instr::Alu(AluKind::Ana, Operand::Reg(Reg8::L))),
        0xa6 => Some(Instr::Alu(AluKind::Ana, Operand::Mem)),
        0xa7 => Some(Instr::Alu(AluKind::Ana, Operand::Reg(Reg8::A))),
        0xa8 => Some(Instr::Alu(AluKind::Xra, Operand::Reg(Reg8::B))),
        0xa9 => Some(Instr::Alu(AluKind::Xra, Operand::Reg(Reg8::C))),
        0xaa => Some(Instr::Alu(AluKind::Xra, Operand::Reg(Reg8::D))),
        0xab => Some(Instr::Alu(AluKind::Xra, Operand::Reg(Reg8::E))),
        0xac => Some(Instr::Alu(AluKind::Xra, Operand::Reg(Reg8::H))),
        0xad => Some(Instr::Alu(AluKind::Xra, Operand::Reg(Reg8::L))),
        0xae => Some(Instr::Alu(AluKind::Xra, Operand::Mem)),
        0xaf => Some(Instr::Alu(AluKind::Xra, Operand::Reg(Reg8::A))),
        0xb0 => Some(Instr::Alu(AluKind::Ora, Operand::Reg(Reg8::B))),
        0xb1 => Some(Instr::Alu(AluKind::Ora, Operand::Reg(Reg8::C))),
        0xb2 => Some(Instr::Alu(AluKind::Ora, Operand::Reg(Reg8::D))),
        0xb3 => Some(Instr::Alu(AluKind::Ora, Operand::Reg(Reg8::E))),
        0xb4 => Some(Instr::Alu(AluKind::Ora, Operand::Reg(Reg8::H))),
        0xb5 => Some(Instr::Alu(AluKind::Ora, Operand::Reg(Reg8::L))),
        0xb6 => Some(Instr::Alu(AluKind::Ora, Operand::Mem)),
        0xb7 => Some(Instr::Alu(AluKind::Ora, Operand::Reg(Reg8::A))),
        0xb8 => Some(Instr::Alu(AluKind::Cmp, Operand::Reg(Reg8::B))),
        0xb9 => Some(Instr::Alu(AluKind::Cmp, Operand::Reg(Reg8::C))),
        0xba => Some(Instr::Alu(AluKind::Cmp, Operand::Reg(Reg8::D))),
        0xbb => Some(Instr::Alu(AluKind::Cmp, Operand::Reg(Reg8::E))),
        0xbc => Some(Instr::Alu(AluKind::Cmp, Operand::Reg(Reg8::H))),
        0xbd => Some(Instr::Alu(AluKind::Cmp, Operand::Reg(Reg8::L))),
        0xbe => Some(Instr::Alu(AluKind::Cmp, Operand::Mem)),
        0xbf => Some(Instr::Alu(AluKind::Cmp, Operand::Reg(Reg8::A))),
        0xc0 => Some(Instr::Ret(Cond::NotZero)),
        0xc1 => Some(Instr::Pop(Pair::BC)),
        0xc2 => Some(Instr::Jmp(Cond::NotZero)),
        0xc3 => Some(Instr::Jmp(Cond::Always)),
        0xc4 => Some(Instr::Call(Cond::NotZero)),
        0xc5 => Some(Instr::Push(Pair::BC)),
        0xc6 => Some(Instr::Alu(AluKind::Add, Operand::Imm)),
        0xc8 => Some(Instr::Ret(Cond::Zero)),
        0xc9 => Some(Instr::Ret(Cond::Always)),
        0xca => Some(Instr::Jmp(Cond::Zero)),
        0xcc => Some(Instr::Call(Cond::Zero)),
        0xcd => Some(Instr::Call(Cond::Always)),
        0xce => Some(Instr::Alu(AluKind::Adc, Operand::Imm)),
        0xd0 => Some(Instr::Ret(Cond::NotCarry)),
        0xd1 => Some(Instr::Pop(Pair::DE)),
        0xd2 => Some(Instr::Jmp(Cond::NotCarry)),
        0xd3 => Some(Instr::Out),
        0xd4 => Some(Instr::Call(Cond::NotCarry)),
        0xd5 => Some(Instr::Push(Pair::DE)),
        0xd6 => Some(Instr::Alu(AluKind::Sub, Operand::Imm)),
        0xd8 => Some(Instr::Ret(Cond::Carry)),
        0xda => Some(Instr::Jmp(Cond::Carry)),
        0xdb => Some(Instr::In),
        0xdc => Some(Instr::Call(Cond::Carry)),
        0xde => Some(Instr::Alu(AluKind::Sbb, Operand::Imm)),
        0xe0 => Some(Instr::Ret(Cond::ParityOdd)),
        0xe1 => Some(Instr::Pop(Pair::HL)),
        0xe2 => Some(Instr::Jmp(Cond::ParityOdd)),
        0xe4 => Some(Instr::Call(Cond::ParityOdd)),
        0xe5 => Some(Instr::Push(Pair::HL)),
        0xe6 => Some(Instr::Alu(AluKind::Ana, Operand::Imm)),
        0xe8 => Some(Instr::Ret(Cond::ParityEven)),
        0xea => Some(Instr::Jmp(Cond::ParityEven)),
        0xeb => Some(Instr::Xchg),
        0xec => Some(Instr::Call(Cond::ParityEven)),
        0xee => Some(Instr::Alu(AluKind::Xra, Operand::Imm)),
        0xf0 => Some(Instr::Ret(Cond::Plus)),
        0xf1 => Some(Instr::PopPsw),
        0xf2 => Some(Instr::Jmp(Cond::Plus)),
        0xf4 => Some(Instr::Call(Cond::Plus)),
        0xf5 => Some(Instr::PushPsw),
        0xf6 => Some(Instr::Alu(AluKind::Ora, Operand::Imm)),
        0xf8 => Some(Instr::Ret(Cond::Minus)),
        0xfa => Some(Instr::Jmp(Cond::Minus)),
        0xfb => Some(Instr::Nop),
        0xfc => Some(Instr::Call(Cond::Minus)),
        0xfe => Some(Instr::Alu(AluKind::Cmp, Operand::Imm)),
        _ => None,
    }
}

/// The cycle cost charged for an opcode, from the fixed per-opcode table.
pub open spec fn cycles_spec(op: u8) -> u8 {
    match op {
        0x00 | 0x07 | 0x08 | 0x0f | 0x10 | 0x17 | 0x18 | 0x1f | 0x20 | 0x27 | 0x28 | 0x2f | 0x30 | 0x37 | 0x38 | 0x3f | 0x80 | 0x81 | 0x82 | 0x83 | 0x84 | 0x85 | 0x87 | 0x88 | 0x89 | 0x8a | 0x8b | 0x8c | 0x8d | 0x8f | 0x90 | 0x91 | 0x92 | 0x93 | 0x94 | 0x95 | 0x97 | 0x98 | 0x99 | 0x9a | 0x9b | 0x9c | 0x9d | 0x9f | 0xa0 | 0xa1 | 0xa2 | 0xa3 | 0xa4 | 0xa5 | 0xa7 | 0xa8 | 0xa9 | 0xaa | 0xab | 0xac | 0xad | 0xaf | 0xb0 | 0xb1 | 0xb2 | 0xb3 | 0xb4 | 0xb5 | 0xb7 | 0xb8 | 0xb9 | 0xba | 0xbb | 0xbc | 0xbd | 0xbf | 0xeb | 0xf3 | 0xfb => 4,
        0x03 | 0x04 | 0x05 | 0x0b | 0x0c | 0x0d | 0x13 | 0x14 | 0x15 | 0x1b | 0x1c | 0x1d | 0x23 | 0x24 | 0x25 | 0x2b | 0x2c | 0x2d | 0x33 | 0x3b | 0x3c | 0x3d | 0x40 | 0x41 | 0x42 | 0x43 | 0x44 | 0x45 | 0x47 | 0x48 | 0x49 | 0x4a | 0x4b | 0x4c | 0x4d | 0x4f | 0x50 | 0x51 | 0x52 | 0x53 | 0x54 | 0x55 | 0x57 | 0x58 | 0x59 | 0x5a | 0x5b | 0x5c | 0x5d | 0x5f | 0x60 | 0x61 | 0x62 | 0x63 | 0x64 | 0x65 | 0x67 | 0x68 | 0x69 | 0x6a | 0x6b | 0x6c | 0x6d | 0x6f | 0x78 | 0x79 | 0x7a | 0x7b | 0x7c | 0x7d | 0x7f | 0xc0 | 0xc8 | 0xd0 | 0xd8 | 0xe0 | 0xe8 | 0xe9 | 0xf0 | 0xf8 | 0xf9 => 5,
        0x02 | 0x06 | 0x0a | 0x0e | 0x12 | 0x16 | 0x1a | 0x1e | 0x26 | 0x2e | 0x3e | 0x46 | 0x4e | 0x56 | 0x5e | 0x66 | 0x6e | 0x70 | 0x71 | 0x72 | 0x73 | 0x74 | 0x75 | 0x76 | 0x77 | 0x7e | 0x86 | 0x8e | 0x96 | 0x9e | 0xa6 | 0xae | 0xb6 | 0xbe | 0xc6 | 0xce | 0xd6 | 0xde | 0xe6 | 0xee | 0xf6 | 0xfe => 7,
        0x01 | 0x09 | 0x11 | 0x19 | 0x21 | 0x29 | 0x31 | 0x34 | 0x35 | 0x36 | 0x39 | 0xc1 | 0xc2 | 0xc3 | 0xc9 | 0xca | 0xcb | 0xd1 | 0xd2 | 0xd3 | 0xd9 | 0xda | 0xdb | 0xe1 | 0xe2 | 0xea | 0xf1 | 0xf2 | 0xfa => 10,
        0xc4 | 0xc5 | 0xc7 | 0xcc | 0xcf | 0xd4 | 0xd5 | 0xd7 | 0xdc | 0xdf | 0xe4 | 0xe5 | 0xe7 | 0xec | 0xef | 0xf4 | 0xf5 | 0xf7 | 0xfc | 0xff => 11,
        0x32 | 0x3a => 13,
        0x22 | 0x2a => 16,
        0xcd | 0xdd | 0xed | 0xfd => 17,
        0xe3 => 18,
    }
}

/// Every entry of the cycle table lies between 4 and 18.
pub proof fn lemma_cycles_bound(op: u8)
    ensures
        4 <= cycles_spec(op) <= 18,
{
}

/// Looks up the cycle cost of an opcode in the fixed per-opcode table.
pub fn cycles_of(op: u8) -> (r: u8)
    ensures
        r == cycles_spec(op),
{
    match op {
        0x00 | 0x07 | 0x08 | 0x0f | 0x10 | 0x17 | 0x18 | 0x1f | 0x20 | 0x27 | 0x28 | 0x2f | 0x30 | 0x37 | 0x38 | 0x3f | 0x80 | 0x81 | 0x82 | 0x83 | 0x84 | 0x85 | 0x87 | 0x88 | 0x89 | 0x8a | 0x8b | 0x8c | 0x8d | 0x8f | 0x90 | 0x91 | 0x92 | 0x93 | 0x94 | 0x95 | 0x97 | 0x98 | 0x99 | 0x9a | 0x9b | 0x9c | 0x9d | 0x9f | 0xa0 | 0xa1 | 0xa2 | 0xa3 | 0xa4 | 0xa5 | 0xa7 | 0xa8 | 0xa9 | 0xaa | 0xab | 0xac | 0xad | 0xaf | 0xb0 | 0xb1 | 0xb2 | 0xb3 | 0xb4 | 0xb5 | 0xb7 | 0xb8 | 0xb9 | 0xba | 0xbb | 0xbc | 0xbd | 0xbf | 0xeb | 0xf3 | 0xfb => 4,
        0x03 | 0x04 | 0x05 | 0x0b | 0x0c | 0x0d | 0x13 | 0x14 | 0x15 | 0x1b | 0x1c | 0x1d | 0x23 | 0x24 | 0x25 | 0x2b | 0x2c | 0x2d | 0x33 | 0x3b | 0x3c | 0x3d | 0x40 | 0x41 | 0x42 | 0x43 | 0x44 | 0x45 | 0x47 | 0x48 | 0x49 | 0x4a | 0x4b | 0x4c | 0x4d | 0x4f | 0x50 | 0x51 | 0x52 | 0x53 | 0x54 | 0x55 | 0x57 | 0x58 | 0x59 | 0x5a | 0x5b | 0x5c | 0x5d | 0x5f | 0x60 | 0x61 | 0x62 | 0x63 | 0x64 | 0x65 | 0x67 | 0x68 | 0x69 | 0x6a | 0x6b | 0x6c | 0x6d | 0x6f | 0x78 | 0x79 | 0x7a | 0x7b | 0x7c | 0x7d | 0x7f | 0xc0 | 0xc8 | 0xd0 | 0xd8 | 0xe0 | 0xe8 | 0xe9 | 0xf0 | 0xf8 | 0xf9 => 5,
        0x02 | 0x06 | 0x0a | 0x0e | 0x12 | 0x16 | 0x1a | 0x1e | 0x26 | 0x2e | 0x3e | 0x46 | 0x4e | 0x56 | 0x5e | 0x66 | 0x6e | 0x70 | 0x71 | 0x72 | 0x73 | 0x74 | 0x75 | 0x76 | 0x77 | 0x7e | 0x86 | 0x8e | 0x96 | 0x9e | 0xa6 | 0xae | 0xb6 | 0xbe | 0xc6 | 0xce | 0xd6 | 0xde | 0xe6 | 0xee | 0xf6 | 0xfe => 7,
        0x01 | 0x09 | 0x11 | 0x19 | 0x21 | 0x29 | 0x31 | 0x34 | 0x35 | 0x36 | 0x39 | 0xc1 | 0xc2 | 0xc3 | 0xc9 | 0xca | 0xcb | 0xd1 | 0xd2 | 0xd3 | 0xd9 | 0xda | 0xdb | 0xe1 | 0xe2 | 0xea | 0xf1 | 0xf2 | 0xfa => 10,
        0xc4 | 0xc5 | 0xc7 | 0xcc | 0xcf | 0xd4 | 0xd5 | 0xd7 | 0xdc | 0xdf | 0xe4 | 0xe5 | 0xe7 | 0xec | 0xef | 0xf4 | 0xf5 | 0xf7 | 0xfc | 0xff => 11,
        0x32 | 0x3a => 13,
        0x22 | 0x2a => 16,
        0xcd | 0xdd | 0xed | 0xfd => 17,
        0xe3 => 18,
    }
}

} // verus!
