//! The arcade cabinet around the processor: owns one CPU, paces it one
//! call at a time, and hands a copy of the video frame window out to a
//! renderer. Reading a program image from disk is the host's business; the
//! cabinet takes the bytes.

use crate::cpu::Cpu;
use crate::cpu::init_mem;
use crate::cpu::zero_mem;
use crate::flags::Flags;
use crate::io::IO;
use crate::isa::cycles_spec;
use crate::machine::ExecutionFault;
use crate::machine::Outcome;
use crate::machine::Registers;
use crate::machine::cycle_spec;
use crate::machine::in_mem;
use crate::step::same_counters;
use vstd::prelude::*;

verus! {

/// The first address of the video frame window.
pub const FRAME_LO: usize = 0x2400;

/// The first address past the video frame window: the window is
/// 0x2400-0x3FFF inclusive.
pub const FRAME_HI: usize = 0x4000;

/// One arcade cabinet: an independent processor with no shared state.
pub struct InvadersCabinet {
    pub cpu: Cpu,
}

impl InvadersCabinet {
    /// Powers on the cabinet. With `None` the machine comes up with zeroed
    /// memory and no program; with a program image the image is loaded at
    /// address 0.
    pub fn init(program: Option<&[u8]>) -> (r: InvadersCabinet)
        ensures
            r.cpu.wf(),
            r.cpu.regs == Registers::spec_default(),
            r.cpu.flags == Flags::spec_default(),
            r.cpu.io == IO::spec_default(),
            !r.cpu.hlted,
            r.cpu.instructions == 0,
            r.cpu.subcycles == 0,
            r.cpu.memory@ == (match program {
                Option::Some(p) => init_mem(p@, 0),
                Option::None => zero_mem(),
            }),
    {
        match program {
            Option::Some(bytes) => InvadersCabinet { cpu: Cpu::init(0, bytes) },
            Option::None => {
                let empty: Vec<u8> = Vec::new();
                let cabinet = InvadersCabinet { cpu: Cpu::init(0, empty.as_slice()) };
                cabinet
            },
        }
    }

    /// Runs the processor's pacing step once: mostly it only counts, and
    /// once the count passes the next instruction's cycle cost it executes
    /// that instruction.
    pub fn emulate_cycle(&mut self) -> (r: Result<(), ExecutionFault>)
        requires
            old(self).cpu.wf(),
            old(self).cpu.instructions < usize::MAX,
        ensures
            final(self).cpu.wf(),
            (if !in_mem(old(self).cpu.regs.pc) {
                &&& r == Err::<(), ExecutionFault>(ExecutionFault::AddressOutOfRange)
                &&& final(self).cpu.model() == old(self).cpu.model()
                &&& same_counters(old(self).cpu, final(self).cpu)
            } else if old(self).cpu.subcycles > cycles_spec(
                old(self).cpu.memory@[old(self).cpu.regs.pc as int],
            ) {
                &&& final(self).cpu.subcycles == 0
                &&& (match cycle_spec(old(self).cpu.model()) {
                    Outcome::Fault(f) => {
                        &&& r == Err::<(), ExecutionFault>(f)
                        &&& final(self).cpu.model() == old(self).cpu.model()
                        &&& final(self).cpu.instructions == old(self).cpu.instructions
                    },
                    Outcome::Next(m2) => {
                        &&& r == Ok::<(), ExecutionFault>(())
                        &&& final(self).cpu.model() == m2
                        &&& final(self).cpu.instructions == old(self).cpu.instructions + 1
                    },
                })
            } else {
                &&& r == Ok::<(), ExecutionFault>(())
                &&& final(self).cpu.model() == old(self).cpu.model()
                &&& final(self).cpu.instructions == old(self).cpu.instructions
                &&& final(self).cpu.subcycles == old(self).cpu.subcycles + 1
            }),
    {
        self.cpu.cycle_d()
    }

    /// A copy of the video frame window, for a renderer. A pure accessor
    /// with no mutation.
    pub fn get_frame(&self) -> (r: Vec<u8>)
        requires
            self.cpu.wf(),
        ensures
            r@ == self.cpu.memory@.subrange(FRAME_LO as int, FRAME_HI as int),
    {
        let mut frame: Vec<u8> = Vec::new();
        let mut i: usize = FRAME_LO;
        while i < FRAME_HI
            invariant
                FRAME_LO <= i <= FRAME_HI,
                self.cpu.wf(),
                frame@.len() == i - FRAME_LO,
                forall|j: int|
                    0 <= j < frame@.len() ==> frame@[j] == self.cpu.memory@[FRAME_LO + j],
            decreases FRAME_HI - i,
        {
            let b = self.cpu.memory[i];
            frame.push(b);
            i = i + 1;
        }
        proof {
            assert(frame@ =~= self.cpu.memory@.subrange(FRAME_LO as int, FRAME_HI as int));
        }
        frame
    }
}

} // verus!
