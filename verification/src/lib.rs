//! An instruction-level emulator for an Intel 8080-class processor, as found
//! in a classic arcade cabinet: a register file, the five condition flags, a
//! flat byte-addressable memory, and a single-step decode/execute engine whose
//! visible state transitions are specified and proved against a mathematical
//! model of the machine.

pub mod bits;
pub mod cpu;
pub mod flags;
pub mod io;
pub mod isa;
pub mod laws;
pub mod machine;
pub mod platform;
pub mod step;
