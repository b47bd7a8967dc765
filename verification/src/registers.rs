//! Access to the register file, the program counter and the other scalars.

use vstd::prelude::*;
use crate::machine::Chip8Hardware;

verus! {

impl Chip8Hardware {
    /// Writes the low byte of `opcode_value` to register `index`.
    pub fn set_register_value(&mut self, index: u16, opcode_value: u16)
        requires
            old(self).wf(),
            index < 16,
        ensures
            final(self).wf(),
            final(self)@ == old(self)@.with_register(index as int, (opcode_value % 256) as u8),
    {
        assert(opcode_value as u8 == opcode_value % 256) by (bit_vector);
        self.registers[index as usize] = #[verifier::truncate] (opcode_value as u8);
    }

    /// Reads register `index`. Nothing changes.
    pub fn get_register_value(&mut self, index: u16) -> (value: u16)
        requires
            index < 16,
        ensures
            *final(self) == *old(self),
            value == old(self)@.registers[index as int],
    {
        self.registers[index as usize] as u16
    }

    /// Moves the program counter past the next instruction.
    pub fn skip_instruction(&mut self)
        requires
            old(self).wf(),
        ensures
            final(self).wf(),
            final(self)@ == old(self)@.skip_if(true),
    {
        self.program_counter = self.program_counter.wrapping_add(2);
    }

    /// The program counter.
    pub fn program_counter(&self) -> (pc: u16)
        ensures
            pc == self@.pc,
    {
        self.program_counter
    }

    /// The address register I.
    pub fn address_register(&self) -> (index: u16)
        ensures
            index == self@.index,
    {
        self.address_i
    }

    /// The number of pending return addresses.
    pub fn stack_depth(&self) -> (depth: usize)
        requires
            self.wf(),
        ensures
            depth == self@.stack.len(),
    {
        self.stack_pointer
    }

    /// The byte at `address`.
    pub fn read_memory(&self, address: u16) -> (byte: u8)
        requires
            address < 4096,
        ensures
            byte == self@.memory[address as int],
    {
        self.memory[address as usize]
    }
}

} // verus!
