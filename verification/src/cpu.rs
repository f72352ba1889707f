//! The processor: the register file, flags, address space and I/O device
//! owned by one decode/execute engine, with its constructor and program
//! loader. The engine itself lives in the `step` module.

use crate::bits::combine_be;
use crate::bits::combine_le;
use crate::bits::word_from;
use crate::flags::Flags;
use crate::io::IO;
use crate::machine::LoadError;
use crate::machine::MEM_SIZE;
use crate::machine::Machine;
use crate::machine::Registers;
use crate::machine::hl_addr;
use crate::machine::in_mem;
use vstd::prelude::*;

verus! {

/// All of memory as it is at power-on: zeroed.
pub open spec fn zero_mem() -> Seq<u8> {
    Seq::new(MEM_SIZE as nat, |i: int| 0u8)
}

/// `base` with `prog` written over it starting at `origin`.
pub open spec fn image_at(base: Seq<u8>, prog: Seq<u8>, origin: int) -> Seq<u8> {
    Seq::new(
        base.len(),
        |i: int|
            if origin <= i < origin + prog.len() {
                prog[i - origin]
            } else {
                base[i]
            },
    )
}

/// The memory contents after construction: the zeroed space, overwritten
/// with the program image when the image is non-empty and fits.
pub open spec fn init_mem(prog: Seq<u8>, origin: int) -> Seq<u8> {
    if prog.len() > 0 && origin + prog.len() <= MEM_SIZE {
        image_at(zero_mem(), prog, origin)
    } else {
        zero_mem()
    }
}

/// The processor: sole owner of its registers, flags, memory and port
/// device. It is driven one instruction at a time through `cycle`.
pub struct Cpu {
    pub regs: Registers,
    pub flags: Flags,
    pub memory: Vec<u8>,
    pub hlted: bool,
    pub instructions: usize,
    pub subcycles: u8,
    pub io: IO,
}

impl Cpu {
    /// The abstract machine state this processor is in.
    pub open spec fn model(&self) -> Machine {
        Machine {
            regs: self.regs,
            flags: self.flags,
            mem: self.memory@,
            io: self.io,
            halted: self.hlted,
        }
    }

    /// Well-formedness: the memory has exactly the size of the address
    /// space, and the cycle-pacing counter stays within its working range.
    pub open spec fn wf(&self) -> bool {
        &&& self.memory@.len() == MEM_SIZE
        &&& self.subcycles <= 19
    }

    /// Powers on a processor: registers, flags and ports cleared, memory
    /// zeroed and then loaded with the program image at the given origin.
    /// An image that is empty or does not fit is ignored, leaving memory
    /// zeroed.
    pub fn init(pc: u16, program: &[u8]) -> (r: Cpu)
        ensures
            r.wf(),
            r.regs == Registers::spec_default(),
            r.flags == Flags::spec_default(),
            r.io == IO::spec_default(),
            !r.hlted,
            r.instructions == 0,
            r.subcycles == 0,
            r.memory@ == init_mem(program@, pc as int),
    {
        let mut memory: Vec<u8> = Vec::new();
        while memory.len() < MEM_SIZE
            invariant
                memory@.len() <= MEM_SIZE,
                forall|i: int| 0 <= i < memory@.len() ==> memory@[i] == 0u8,
            decreases MEM_SIZE - memory@.len(),
        {
            memory.push(0);
        }
        proof {
            assert(memory@ =~= zero_mem());
        }
        let mut c = Cpu {
            regs: Registers { pc: 0, a: 0, b: 0, c: 0, d: 0, e: 0, h: 0, l: 0, sp: 0 },
            flags: Flags { sign: false, zero: false, parity: false, carry: false, aux_carry: false },
            memory,
            hlted: false,
            instructions: 0,
            subcycles: 0,
            io: IO { shift_offset: 0, shift_reg: 0, read_1: 0 },
        };
        let _ = c.load_into_memory(program, pc as usize);
        c
    }

    /// Loads a byte image into memory at the given origin. Fails without
    /// touching anything if the image is empty or would run past the end of
    /// the address space.
    pub fn load_into_memory(&mut self, bytes: &[u8], address: usize) -> (r: Result<
        (),
        LoadError,
    >)
        requires
            old(self).wf(),
        ensures
            final(self).wf(),
            final(self).regs == old(self).regs,
            final(self).flags == old(self).flags,
            final(self).io == old(self).io,
            final(self).hlted == old(self).hlted,
            final(self).instructions == old(self).instructions,
            final(self).subcycles == old(self).subcycles,
            bytes@.len() == 0 ==> r == Err::<(), LoadError>(LoadError::EmptyProgram)
                && final(self).memory@ == old(self).memory@,
            bytes@.len() > 0 && address + bytes@.len() > MEM_SIZE ==> r == Err::<(), LoadError>(
                LoadError::ProgramOutOfRange,
            ) && final(self).memory@ == old(self).memory@,
            bytes@.len() > 0 && address + bytes@.len() <= MEM_SIZE ==> r == Ok::<(), LoadError>(())
                && final(self).memory@ == image_at(old(self).memory@, bytes@, address as int),
    {
        if bytes.len() == 0 {
            return Err(LoadError::EmptyProgram);
        }
        if bytes.len() > MEM_SIZE || address > MEM_SIZE - bytes.len() {
            return Err(LoadError::ProgramOutOfRange);
        }
        let n = bytes.len();
        let mut i: usize = 0;
        while i < n
            invariant
                n == bytes@.len(),
                address + n <= MEM_SIZE,
                i <= n,
                self.memory@.len() == MEM_SIZE,
                self.regs == old(self).regs,
                self.flags == old(self).flags,
                self.io == old(self).io,
                self.hlted == old(self).hlted,
                self.instructions == old(self).instructions,
                self.subcycles == old(self).subcycles,
                forall|j: int| 0 <= j < i ==> self.memory@[address + j] == bytes@[j],
                forall|j: int|
                    0 <= j < MEM_SIZE && !(address <= j < address + i) ==> self.memory@[j] == old(
                        self,
                    ).memory@[j],
            decreases n - i,
        {
            let b = bytes[i];
            self.memory[address + i] = b;
            i = i + 1;
        }
        proof {
            assert(self.memory@ =~= image_at(old(self).memory@, bytes@, address as int));
        }
        Ok(())
    }

    /// Combines two bytes little-endian style: the first argument becomes
    /// the low byte. This is the layout of 16-bit immediates in the
    /// instruction stream.
    pub fn cmb_le(&self, val1: u8, val2: u8) -> (r: u16)
        ensures
            r == word_from(val2, val1),
    {
        combine_le(val1, val2)
    }

    /// Combines two bytes big-endian style: the first argument becomes the
    /// high byte. This is the layout of a register pair.
    pub fn cmb_be(&self, val1: u8, val2: u8) -> (r: u16)
        ensures
            r == word_from(val1, val2),
    {
        combine_be(val1, val2)
    }

    /// Writes one byte of memory.
    pub fn mem_write(&mut self, pos: usize, val: u8)
        requires
            old(self).wf(),
            pos < MEM_SIZE,
        ensures
            final(self).wf(),
            final(self).regs == old(self).regs,
            final(self).flags == old(self).flags,
            final(self).io == old(self).io,
            final(self).hlted == old(self).hlted,
            final(self).instructions == old(self).instructions,
            final(self).subcycles == old(self).subcycles,
            final(self).memory@ == old(self).memory@.update(pos as int, val),
    {
        self.memory[pos] = val;
    }

    /// The byte addressed by the HL pair.
    pub fn get_m(&self) -> (r: u8)
        requires
            self.wf(),
            in_mem(hl_addr(self.regs)),
        ensures
            r == self.memory@[hl_addr(self.regs) as int],
    {
        let addr = self.cmb_be(self.regs.h, self.regs.l);
        self.memory[addr as usize]
    }

    /// Writes the byte addressed by the HL pair.
    pub fn set_m(&mut self, val: u8)
        requires
            old(self).wf(),
            in_mem(hl_addr(old(self).regs)),
        ensures
            final(self).wf(),
            final(self).regs == old(self).regs,
            final(self).flags == old(self).flags,
            final(self).io == old(self).io,
            final(self).hlted == old(self).hlted,
            final(self).instructions == old(self).instructions,
            final(self).subcycles == old(self).subcycles,
            final(self).memory@ == old(self).memory@.update(hl_addr(old(self).regs) as int, val),
    {
        let addr = self.cmb_be(self.regs.h, self.regs.l);
        self.mem_write(addr as usize, val);
    }

    /// A structured snapshot for a debugger or monitor: the register names,
    /// the seven 8-bit register values in the same order, and the two
    /// 16-bit registers. A pure accessor with no mutation.
    pub fn get_regs(&self) -> (r: ([&str; 9], [u8; 7], [u16; 2]))
        ensures
            r.1@ == seq![
                self.regs.a,
                self.regs.b,
                self.regs.c,
                self.regs.d,
                self.regs.e,
                self.regs.h,
                self.regs.l,
            ],
            r.2@ == seq![self.regs.pc, self.regs.sp],
            r.0@.len() == 9,
            r.0@[0]@ == "A"@ && r.0@[1]@ == "B"@ && r.0@[2]@ == "C"@,
            r.0@[3]@ == "D"@ && r.0@[4]@ == "E"@ && r.0@[5]@ == "H"@,
            r.0@[6]@ == "L"@ && r.0@[7]@ == "PC"@ && r.0@[8]@ == "SP"@,
    {
        let regs = [
            self.regs.a,
            self.regs.b,
            self.regs.c,
            self.regs.d,
            self.regs.e,
            self.regs.h,
            self.regs.l,
        ];
        let regs16 = [self.regs.pc, self.regs.sp];
        let names = ["A", "B", "C", "D", "E", "H", "L", "PC", "SP"];
        proof {
            assert(regs@ =~= seq![
                self.regs.a,
                self.regs.b,
                self.regs.c,
                self.regs.d,
                self.regs.e,
                self.regs.h,
                self.regs.l,
            ]);
            assert(regs16@ =~= seq![self.regs.pc, self.regs.sp]);
        }
        (names, regs, regs16)
    }

    /// Loads the accumulator from the address formed by a register pair,
    /// the first argument as high byte.
    pub fn ldax(&mut self, reg1: u8, reg2: u8)
        requires
            old(self).wf(),
            in_mem(word_from(reg1, reg2)),
        ensures
            final(self).wf(),
            final(self).regs == (Registers { a: old(self).memory@[word_from(reg1, reg2) as int], ..old(self).regs }),
            final(self).flags == old(self).flags,
            final(self).io == old(self).io,
            final(self).hlted == old(self).hlted,
            final(self).instructions == old(self).instructions,
            final(self).subcycles == old(self).subcycles,
            final(self).memory@ == old(self).memory@,
    {
        let addr = self.cmb_be(reg1, reg2);
        self.regs.a = self.memory[addr as usize];
    }
}

} // verus!
