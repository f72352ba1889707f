//! The memory-mapped I/O port device of the arcade cabinet: a 16-bit shift
//! register written through two ports, and a coin/input latch read back
//! through an input port.

use vstd::prelude::*;

verus! {

/// The port device. Port 2 sets the shift offset, port 4 feeds the shift
/// register a byte at a time, port 6 is accepted and ignored; port 1 reads
/// the input latch.
#[derive(Clone, Copy, PartialEq, Eq, Structural, Debug)]
pub struct IO {
    pub shift_offset: u8,
    pub shift_reg: u16,
    pub read_1: u8,
}

/// The output ports this device implements. The core does not interpret
/// port numbers; it only asks the device whether a port is served.
pub open spec fn spec_out_port_supported(port: u8) -> bool {
    port == 2 || port == 4 || port == 6
}

/// The input ports this device implements.
pub open spec fn spec_in_port_supported(port: u8) -> bool {
    port == 1
}

/// The device state after a write of `value` to `port`, for the ports the
/// device implements.
pub open spec fn spec_io_write(io: IO, port: u8, value: u8) -> IO
    recommends
        spec_out_port_supported(port),
{
    if port == 2 {
        IO { shift_offset: value & 0x7, ..io }
    } else if port == 4 {
        IO { shift_reg: (io.shift_reg >> 8) | ((value as u16) << 8), ..io }
    } else {
        io
    }
}

impl IO {
    /// A powered-on device: shift register and input latch cleared.
    pub open spec fn spec_default() -> IO {
        IO { shift_offset: 0, shift_reg: 0, read_1: 0 }
    }

    /// Whether the device serves a write to this port.
    pub fn out_port_supported(port: u8) -> (r: bool)
        ensures
            r == spec_out_port_supported(port),
    {
        port == 2 || port == 4 || port == 6
    }

    /// Whether the device serves a read from this port.
    pub fn in_port_supported(port: u8) -> (r: bool)
        ensures
            r == spec_in_port_supported(port),
    {
        port == 1
    }

    /// Handles an OUT instruction: port 2 takes the low three bits as the
    /// shift offset, port 4 shifts the register right a byte and installs the
    /// value as the new high byte, port 6 is ignored. Other ports are not
    /// implemented by this device.
    pub fn cpu_write(&mut self, port: u8, value: u8)
        requires
            spec_out_port_supported(port),
        ensures
            *final(self) == spec_io_write(*old(self), port, value),
    {
        if port == 2 {
            self.shift_offset = value & 0x7;
        } else if port == 4 {
            self.shift_reg = (self.shift_reg >> 8) | ((value as u16) << 8);
        }
    }

    /// Handles an IN instruction: port 1 reads the input latch. Other ports
    /// are not implemented by this device.
    pub fn cpu_read(&self, port: u8) -> (r: u8)
        requires
            spec_in_port_supported(port),
        ensures
            r == self.read_1,
    {
        self.read_1
    }

    /// Raises one bit of the port-1 input latch.
    pub fn set_port_1(&mut self, bit: u8)
        requires
            bit < 8,
        ensures
            final(self).read_1 == old(self).read_1 | (1u8 << bit),
            final(self).shift_offset == old(self).shift_offset,
            final(self).shift_reg == old(self).shift_reg,
    {
        self.read_1 = self.read_1 | (1u8 << bit);
    }

    /// Registers an inserted coin: bit 0 of the port-1 input latch.
    pub fn insert_coin(&mut self)
        ensures
            final(self).read_1 == old(self).read_1 | 1u8,
            final(self).shift_offset == old(self).shift_offset,
            final(self).shift_reg == old(self).shift_reg,
    {
        self.set_port_1(0);
        proof {
            assert(1u8 << 0 == 1u8) by (bit_vector);
        }
    }
}

impl Default for IO {
    /// A powered-on device with everything cleared.
    fn default() -> (r: IO)
        ensures
            r == IO::spec_default(),
    {
        IO { shift_offset: 0, shift_reg: 0, read_1: 0 }
    }
}

} // verus!
