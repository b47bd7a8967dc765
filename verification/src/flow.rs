//! Jumps, calls, returns and conditional skips.

use vstd::prelude::*;
use crate::decode::{operand_nn, operand_nnn, operand_x, operand_y};
use crate::fault::Fault;
use crate::machine::Chip8Hardware;
use crate::state::{settles, STACK_DEPTH};

verus! {

impl Chip8Hardware {
    /// `JP addr`: continue at `NNN`.
    #[allow(non_snake_case)]
    pub fn opcode_1NNN(&mut self, opcode: u16)
        requires
            old(self).wf(),
        ensures
            final(self).wf(),
            final(self)@ == old(self)@.jp(operand_nnn(opcode)),
    {
        self.program_counter = Chip8Hardware::get_nnn(opcode);
    }

    /// `RET`: continue at the most recent return address and forget it.
    /// With no call pending this is a fault and nothing changes.
    #[allow(non_snake_case)]
    pub fn opcode_00EE(&mut self) -> (result: Result<(), Fault>)
        requires
            old(self).wf(),
        ensures
            final(self).wf(),
            settles(old(self)@, old(self)@.ret(), final(self)@, result),
            result is Ok <==> old(self)@.stack.len() > 0,
    {
        if self.stack_pointer == 0 {
            return Err(Fault::StackUnderflow { pc: self.program_counter.wrapping_sub(2) });
        }
        self.stack_pointer -= 1;
        self.program_counter = self.stack[self.stack_pointer];
        assert(self@ =~~= old(self)@.ret()->Ok_0);
        Ok(())
    }

    /// `CALL addr`: remember the program counter, which names the
    /// instruction after this one, and continue at `NNN`. With sixteen calls
    /// pending this is a fault and nothing changes.
    #[allow(non_snake_case)]
    pub fn opcode_2NNN(&mut self, opcode: u16) -> (result: Result<(), Fault>)
        requires
            old(self).wf(),
        ensures
            final(self).wf(),
            settles(old(self)@, old(self)@.call(operand_nnn(opcode)), final(self)@, result),
            result is Ok <==> old(self)@.stack.len() < 16,
    {
        if self.stack_pointer >= STACK_DEPTH {
            return Err(Fault::StackOverflow { pc: self.program_counter.wrapping_sub(2) });
        }
        self.stack[self.stack_pointer] = self.program_counter;
        self.stack_pointer += 1;
        self.program_counter = Chip8Hardware::get_nnn(opcode);
        assert(self@ =~~= old(self)@.call(operand_nnn(opcode))->Ok_0);
        Ok(())
    }

    /// `SE Vx,NN`: skip the next instruction when Vx equals `NN`.
    #[allow(non_snake_case)]
    pub fn opcode_3XNN(&mut self, opcode: u16)
        requires
            old(self).wf(),
        ensures
            final(self).wf(),
            final(self)@ == old(self)@.se_byte(operand_x(opcode) as int, operand_nn(opcode)),
    {
        let index: u16 = Chip8Hardware::get_first_arg(opcode);
        let reg_value: u16 = self.get_register_value(index);
        let opcode_value: u16 = Chip8Hardware::get_nn(opcode);
        if reg_value == opcode_value {
            self.skip_instruction();
        }
    }

    /// `SNE Vx,NN`: skip the next instruction when Vx differs from `NN`.
    #[allow(non_snake_case)]
    pub fn opcode_4XNN(&mut self, opcode: u16)
        requires
            old(self).wf(),
        ensures
            final(self).wf(),
            final(self)@ == old(self)@.sne_byte(operand_x(opcode) as int, operand_nn(opcode)),
    {
        let index: u16 = Chip8Hardware::get_first_arg(opcode);
        let reg_value: u16 = self.get_register_value(index);
        let opcode_value: u16 = Chip8Hardware::get_nn(opcode);
        if reg_value != opcode_value {
            self.skip_instruction();
        }
    }

    /// `SE Vx,Vy`: skip the next instruction when Vx equals Vy.
    #[allow(non_snake_case)]
    pub fn opcode_5XY0(&mut self, opcode: u16)
        requires
            old(self).wf(),
        ensures
            final(self).wf(),
            final(self)@ == old(self)@.se_reg(operand_x(opcode) as int, operand_y(opcode) as int),
    {
        let index_x: u16 = Chip8Hardware::get_first_arg(opcode);
        let index_y: u16 = Chip8Hardware::get_second_arg(opcode);
        let reg_value_x: u16 = self.get_register_value(index_x);
        let reg_value_y: u16 = self.get_register_value(index_y);
        if reg_value_x == reg_value_y {
            self.skip_instruction();
        }
    }

    /// `SNE Vx,Vy`: skip the next instruction when Vx differs from Vy.
    #[allow(non_snake_case)]
    pub fn opcode_9XY0(&mut self, opcode: u16)
        requires
            old(self).wf(),
        ensures
            final(self).wf(),
            final(self)@ == old(self)@.sne_reg(operand_x(opcode) as int, operand_y(opcode) as int),
    {
        let index_x: u16 = Chip8Hardware::get_first_arg(opcode);
        let index_y: u16 = Chip8Hardware::get_second_arg(opcode);
        let value_x: u16 = self.get_register_value(index_x);
        let value_y: u16 = self.get_register_value(index_y);
        if value_x != value_y {
            self.skip_instruction();
        }
    }

    /// `JP V0,addr`: continue at `NNN` plus V0.
    #[allow(non_snake_case)]
    pub fn opcode_BNNN(&mut self, opcode: u16)
        requires
            old(self).wf(),
        ensures
            final(self).wf(),
            final(self)@ == old(self)@.jp_offset(operand_nnn(opcode)),
            final(self)@.pc == operand_nnn(opcode) + old(self)@.registers[0],
    {
        let nnn: u16 = Chip8Hardware::get_nnn(opcode);
        let register_value_0: u16 = self.get_register_value(0);
        self.program_counter = nnn + register_value_0;
    }
}

} // verus!
