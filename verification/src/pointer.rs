//! The address register and the instructions that move data between the
//! registers and the memory it points at.

use vstd::prelude::*;
use crate::decode::{operand_nnn, operand_x};
use crate::fault::Fault;
use crate::machine::Chip8Hardware;
use crate::state::{settles, MachineState, MEMORY_SIZE};

verus! {

impl Chip8Hardware {
    /// `LD I,addr`.
    #[allow(non_snake_case)]
    pub fn opcode_ANNN(&mut self, opcode: u16)
        requires
            old(self).wf(),
        ensures
            final(self).wf(),
            final(self)@ == old(self)@.ld_index(operand_nnn(opcode)),
    {
        let nnn: u16 = Chip8Hardware::get_nnn(opcode);
        self.address_i = nnn;
    }

    /// `ADD I,Vx`: I becomes I plus Vx, wrapping at sixteen bits. VF becomes
    /// 1 when the sum lies above `0xFFF`, the last address, and 0 otherwise.
    #[allow(non_snake_case)]
    pub fn opcode_FX1E(&mut self, opcode: u16)
        requires
            old(self).wf(),
        ensures
            final(self).wf(),
            final(self)@ == old(self)@.add_index(operand_x(opcode) as int),
    {
        let index_x: u16 = Chip8Hardware::get_first_arg(opcode);
        let value_x: u16 = self.get_register_value(index_x);
        let overflow: u16 = if self.address_i as u32 + value_x as u32 > 0xFFF {
            1
        } else {
            0
        };
        self.set_register_value(0xF, overflow);
        self.address_i = self.address_i.wrapping_add(value_x);
    }

    /// `LD F,Vx`: I becomes the address of the glyph for the value of Vx,
    /// five times that value.
    #[allow(non_snake_case)]
    pub fn opcode_FX29(&mut self, opcode: u16)
        requires
            old(self).wf(),
        ensures
            final(self).wf(),
            final(self)@ == old(self)@.ld_glyph(operand_x(opcode) as int),
    {
        let index: u16 = Chip8Hardware::get_first_arg(opcode);
        let value_x: u16 = self.get_register_value(index);
        self.address_i = value_x * 5;
    }

    /// `LD B,Vx`: writes the hundreds, tens and ones digit of Vx to the
    /// three bytes at I. If they do not all lie inside memory this is a
    /// fault and nothing is written.
    #[allow(non_snake_case)]
    pub fn opcode_FX33(&mut self, opcode: u16) -> (result: Result<(), Fault>)
        requires
            old(self).wf(),
        ensures
            final(self).wf(),
            settles(
                old(self)@,
                old(self)@.store_bcd(operand_x(opcode) as int),
                final(self)@,
                result,
            ),
            result is Ok <==> old(self)@.index + 2 < 4096,
    {
        let index: u16 = Chip8Hardware::get_first_arg(opcode);
        let mut value_x: u16 = self.get_register_value(index);
        if self.address_i as usize + 2 >= MEMORY_SIZE {
            return Err(
                Fault::MemoryOutOfBounds {
                    address: self.address_i,
                    pc: self.program_counter.wrapping_sub(2),
                },
            );
        }
        let ones: u16 = value_x % 10;
        value_x = value_x / 10;
        let tens: u16 = value_x % 10;
        value_x = value_x / 10;
        let hundreds: u16 = value_x % 10;
        self.memory[self.address_i as usize] = hundreds as u8;
        self.memory[(self.address_i + 1) as usize] = tens as u8;
        self.memory[(self.address_i + 2) as usize] = ones as u8;
        Ok(())
    }

    /// `LD [I],Vx`: copies V0 to Vx to memory from I on. I stays as it is.
    /// If the bytes do not all lie inside memory this is a fault and nothing
    /// is written.
    #[allow(non_snake_case)]
    pub fn opcode_FX55(&mut self, opcode: u16) -> (result: Result<(), Fault>)
        requires
            old(self).wf(),
        ensures
            final(self).wf(),
            settles(
                old(self)@,
                old(self)@.store_registers(operand_x(opcode) as int),
                final(self)@,
                result,
            ),
            result is Ok <==> old(self)@.index + operand_x(opcode) < 4096,
    {
        let index_x: u16 = Chip8Hardware::get_first_arg(opcode);
        if self.address_i as usize + index_x as usize >= MEMORY_SIZE {
            return Err(
                Fault::MemoryOutOfBounds {
                    address: self.address_i,
                    pc: self.program_counter.wrapping_sub(2),
                },
            );
        }
        let ghost post = old(self)@.store_registers(index_x as int)->Ok_0;
        let mut i: u16 = 0;
        while i < index_x + 1
            invariant
                i <= index_x + 1,
                index_x < 16,
                self.address_i + index_x < 4096,
                self.wf(),
                self.registers == old(self).registers,
                self.address_i == old(self).address_i,
                forall|a: int|
                    0 <= a < 4096 ==> self.memory@[a] == (if self.address_i <= a < self.address_i
                        + i {
                        self.registers@[a - self.address_i]
                    } else {
                        old(self).memory@[a]
                    }),
                (MachineState { memory: post.memory, ..self@ }) == post,
            decreases index_x + 1 - i,
        {
            let register_value_i: u16 = self.get_register_value(i);
            self.memory[(self.address_i + i) as usize] = register_value_i as u8;
            i += 1;
        }
        assert(self@ =~~= post);
        Ok(())
    }

    /// `LD Vx,[I]`: fills V0 to Vx from memory from I on. I stays as it is.
    /// If the bytes do not all lie inside memory this is a fault and nothing
    /// changes.
    #[allow(non_snake_case)]
    pub fn opcode_FX65(&mut self, opcode: u16) -> (result: Result<(), Fault>)
        requires
            old(self).wf(),
        ensures
            final(self).wf(),
            settles(
                old(self)@,
                old(self)@.load_registers(operand_x(opcode) as int),
                final(self)@,
                result,
            ),
            result is Ok <==> old(self)@.index + operand_x(opcode) < 4096,
    {
        let index_x: u16 = Chip8Hardware::get_first_arg(opcode);
        if self.address_i as usize + index_x as usize >= MEMORY_SIZE {
            return Err(
                Fault::MemoryOutOfBounds {
                    address: self.address_i,
                    pc: self.program_counter.wrapping_sub(2),
                },
            );
        }
        let ghost post = old(self)@.load_registers(index_x as int)->Ok_0;
        let mut i: u16 = 0;
        while i < index_x + 1
            invariant
                i <= index_x + 1,
                index_x < 16,
                self.address_i + index_x < 4096,
                self.wf(),
                self.memory == old(self).memory,
                self.address_i == old(self).address_i,
                forall|j: int|
                    0 <= j < 16 ==> self.registers@[j] == (if j < i {
                        self.memory@[self.address_i + j]
                    } else {
                        old(self).registers@[j]
                    }),
                (MachineState { registers: post.registers, ..self@ }) == post,
            decreases index_x + 1 - i,
        {
            let memory_value_i: u16 = self.memory[(self.address_i + i) as usize] as u16;
            self.set_register_value(i, memory_value_i);
            i += 1;
        }
        assert(self@ =~~= post);
        Ok(())
    }
}

} // verus!
