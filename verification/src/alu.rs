//! Loads, arithmetic and logic on the registers.
//!
//! Where an instruction yields a flag, the flag goes to VF before the result
//! goes to Vx, so with `X = 0xF` the result is what VF holds afterwards.

use vstd::prelude::*;
use crate::decode::{operand_nn, operand_x, operand_y};
use crate::machine::Chip8Hardware;

verus! {

impl Chip8Hardware {
    /// `LD Vx,NN`.
    #[allow(non_snake_case)]
    pub fn opcode_6XNN(&mut self, opcode: u16)
        requires
            old(self).wf(),
        ensures
            final(self).wf(),
            final(self)@ == old(self)@.ld_byte(operand_x(opcode) as int, operand_nn(opcode)),
    {
        let index_x: u16 = Chip8Hardware::get_first_arg(opcode);
        let opcode_value: u16 = Chip8Hardware::get_nn(opcode);
        self.set_register_value(index_x, opcode_value);
    }

    /// `ADD Vx,NN`: Vx becomes the sum modulo 256. No carry is recorded: VF
    /// stays as it is, unless it is Vx.
    #[allow(non_snake_case)]
    pub fn opcode_7XNN(&mut self, opcode: u16)
        requires
            old(self).wf(),
        ensures
            final(self).wf(),
            final(self)@ == old(self)@.add_byte(operand_x(opcode) as int, operand_nn(opcode)),
    {
        let index_x: u16 = Chip8Hardware::get_first_arg(opcode);
        let value_x: u16 = self.get_register_value(index_x);
        let nn: u16 = Chip8Hardware::get_nn(opcode);
        self.set_register_value(index_x, value_x + nn);
    }

    /// `LD Vx,Vy`.
    #[allow(non_snake_case)]
    pub fn opcode_8XY0(&mut self, opcode: u16)
        requires
            old(self).wf(),
        ensures
            final(self).wf(),
            final(self)@ == old(self)@.ld_reg(operand_x(opcode) as int, operand_y(opcode) as int),
    {
        let index_x: u16 = Chip8Hardware::get_first_arg(opcode);
        let index_y: u16 = Chip8Hardware::get_second_arg(opcode);
        let value_y: u16 = self.get_register_value(index_y);
        self.set_register_value(index_x, value_y);
    }

    /// `OR Vx,Vy`.
    #[allow(non_snake_case)]
    pub fn opcode_8XY1(&mut self, opcode: u16)
        requires
            old(self).wf(),
        ensures
            final(self).wf(),
            final(self)@ == old(self)@.or_reg(operand_x(opcode) as int, operand_y(opcode) as int),
    {
        let index_x: u16 = Chip8Hardware::get_first_arg(opcode);
        let index_y: u16 = Chip8Hardware::get_second_arg(opcode);
        let value_x: u16 = self.get_register_value(index_x);
        let value_y: u16 = self.get_register_value(index_y);
        let or_x_y: u16 = value_x | value_y;
        assert((value_x | value_y) % 256 == ((value_x as u8) | (value_y as u8))) by (bit_vector)
            requires
                value_x < 256,
                value_y < 256,
        ;
        self.set_register_value(index_x, or_x_y);
    }

    /// `AND Vx,Vy`.
    #[allow(non_snake_case)]
    pub fn opcode_8XY2(&mut self, opcode: u16)
        requires
            old(self).wf(),
        ensures
            final(self).wf(),
            final(self)@ == old(self)@.and_reg(operand_x(opcode) as int, operand_y(opcode) as int),
    {
        let index_x: u16 = Chip8Hardware::get_first_arg(opcode);
        let index_y: u16 = Chip8Hardware::get_second_arg(opcode);
        let value_x: u16 = self.get_register_value(index_x);
        let value_y: u16 = self.get_register_value(index_y);
        let and_x_y: u16 = value_x & value_y;
        assert((value_x & value_y) % 256 == ((value_x as u8) & (value_y as u8))) by (bit_vector)
            requires
                value_x < 256,
                value_y < 256,
        ;
        self.set_register_value(index_x, and_x_y);
    }

    /// `XOR Vx,Vy`.
    #[allow(non_snake_case)]
    pub fn opcode_8XY3(&mut self, opcode: u16)
        requires
            old(self).wf(),
        ensures
            final(self).wf(),
            final(self)@ == old(self)@.xor_reg(operand_x(opcode) as int, operand_y(opcode) as int),
    {
        let index_x: u16 = Chip8Hardware::get_first_arg(opcode);
        let index_y: u16 = Chip8Hardware::get_second_arg(opcode);
        let value_x: u16 = self.get_register_value(index_x);
        let value_y: u16 = self.get_register_value(index_y);
        let xor_x_y: u16 = value_x ^ value_y;
        assert((value_x ^ value_y) % 256 == ((value_x as u8) ^ (value_y as u8))) by (bit_vector)
            requires
                value_x < 256,
                value_y < 256,
        ;
        self.set_register_value(index_x, xor_x_y);
    }

    /// `ADD Vx,Vy`: Vx becomes the sum modulo 256, and VF becomes 1 when the
    /// sum exceeds 255 and 0 when it does not. With `X = 0xF` the register
    /// keeps the sum.
    #[allow(non_snake_case)]
    pub fn opcode_8XY4(&mut self, opcode: u16)
        requires
            old(self).wf(),
        ensures
            final(self).wf(),
            final(self)@ == old(self)@.add_reg(operand_x(opcode) as int, operand_y(opcode) as int),
            ({
                let x: int = operand_x(opcode) as int;
                let a: u8 = old(self)@.registers[x];
                let b: u8 = old(self)@.registers[operand_y(opcode) as int];
                &&& final(self)@.registers[x] == (a + b) % 256
                &&& x != 0xF ==> final(self)@.registers[0xF] == (if a + b > 255 {
                    1u8
                } else {
                    0u8
                })
            }),
    {
        let index_x: u16 = Chip8Hardware::get_first_arg(opcode);
        let index_y: u16 = Chip8Hardware::get_second_arg(opcode);
        let value_x: u16 = self.get_register_value(index_x);
        let value_y: u16 = self.get_register_value(index_y);
        let sum_x_y: u16 = value_x + value_y;
        self.registers[0xF] = if sum_x_y > 255 {
            1
        } else {
            0
        };
        self.set_register_value(index_x, sum_x_y);
    }

    /// `SUB Vx,Vy`: Vx becomes the difference modulo 256, and VF becomes 1
    /// when Vx was at least Vy and 0 when it was less. With `X = 0xF` the
    /// register keeps the difference.
    #[allow(non_snake_case)]
    pub fn opcode_8XY5(&mut self, opcode: u16)
        requires
            old(self).wf(),
        ensures
            final(self).wf(),
            final(self)@ == old(self)@.sub_reg(operand_x(opcode) as int, operand_y(opcode) as int),
            ({
                let x: int = operand_x(opcode) as int;
                let a: u8 = old(self)@.registers[x];
                let b: u8 = old(self)@.registers[operand_y(opcode) as int];
                &&& final(self)@.registers[x] == (a - b) % 256
                &&& x != 0xF ==> final(self)@.registers[0xF] == (if a >= b {
                    1u8
                } else {
                    0u8
                })
            }),
    {
        let index_x: u16 = Chip8Hardware::get_first_arg(opcode);
        let index_y: u16 = Chip8Hardware::get_second_arg(opcode);
        let value_x: u16 = self.get_register_value(index_x);
        let value_y: u16 = self.get_register_value(index_y);
        let diff_x_y: u16 = value_x.wrapping_sub(value_y);
        self.registers[0xF] = if value_y > value_x {
            0
        } else {
            1
        };
        self.set_register_value(index_x, diff_x_y);
    }

    /// `SHR Vx`: VF becomes the lowest bit of Vx, then Vx is halved. Y is
    /// not used. With `X = 0xF` the register keeps the half.
    #[allow(non_snake_case)]
    pub fn opcode_8XY6(&mut self, opcode: u16)
        requires
            old(self).wf(),
        ensures
            final(self).wf(),
            final(self)@ == old(self)@.shr(operand_x(opcode) as int),
    {
        let index_x: u16 = Chip8Hardware::get_first_arg(opcode);
        let value_x: u16 = self.get_register_value(index_x);
        assert(value_x & 0x01 == value_x % 2) by (bit_vector);
        assert(value_x >> 1 == value_x / 2) by (bit_vector);
        self.set_register_value(0xF, value_x & 0x01);
        self.set_register_value(index_x, value_x >> 1);
    }

    /// `SUBN Vx,Vy`: Vx becomes Vy minus Vx modulo 256, and VF becomes 1
    /// when Vy was at least Vx and 0 when it was less. With `X = 0xF` the
    /// register keeps the difference.
    #[allow(non_snake_case)]
    pub fn opcode_8XY7(&mut self, opcode: u16)
        requires
            old(self).wf(),
        ensures
            final(self).wf(),
            final(self)@ == old(self)@.subn_reg(
                operand_x(opcode) as int,
                operand_y(opcode) as int,
            ),
    {
        let index_x: u16 = Chip8Hardware::get_first_arg(opcode);
        let index_y: u16 = Chip8Hardware::get_second_arg(opcode);
        let value_x: u16 = self.get_register_value(index_x);
        let value_y: u16 = self.get_register_value(index_y);
        let diff_x_y: u16 = value_y.wrapping_sub(value_x);
        self.registers[0xF] = if value_y < value_x {
            0
        } else {
            1
        };
        self.set_register_value(index_x, diff_x_y);
    }

    /// `SHL Vx`: VF becomes the highest bit of Vx, then Vx is doubled modulo
    /// 256. Y is not used. With `X = 0xF` the register keeps the double.
    #[allow(non_snake_case)]
    pub fn opcode_8XYE(&mut self, opcode: u16)
        requires
            old(self).wf(),
        ensures
            final(self).wf(),
            final(self)@ == old(self)@.shl(operand_x(opcode) as int),
    {
        let index_x: u16 = Chip8Hardware::get_first_arg(opcode);
        let value_x: u16 = self.get_register_value(index_x);
        assert(value_x >> 7 == value_x / 128) by (bit_vector);
        assert(value_x << 1 == value_x * 2) by (bit_vector)
            requires
                value_x < 256,
        ;
        self.set_register_value(0xF, value_x >> 7);
        self.set_register_value(index_x, value_x << 1);
    }
}

} // verus!
