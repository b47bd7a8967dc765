//! Operand fields of a 16-bit instruction word.
//!
//! A word is split as `F X Y N`, four nibbles from the most significant
//! down; `NN` is the low byte and `NNN` the low twelve bits. The fields are
//! defined arithmetically so that their ranges are evident to the solver;
//! the executable extractors use masks and shifts.

use vstd::prelude::*;
use crate::machine::Chip8Hardware;

verus! {

/// The operation family: bits 12 to 15.
pub open spec fn family(opcode: u16) -> u16 {
    opcode / 0x1000
}

/// Operand `X`: bits 8 to 11.
pub open spec fn operand_x(opcode: u16) -> u16 {
    (opcode / 0x100) % 0x10
}

/// Operand `Y`: bits 4 to 7.
pub open spec fn operand_y(opcode: u16) -> u16 {
    (opcode / 0x10) % 0x10
}

/// Operand `N`: bits 0 to 3.
pub open spec fn operand_n(opcode: u16) -> u16 {
    opcode % 0x10
}

/// Operand `NN`: bits 0 to 7.
pub open spec fn operand_nn(opcode: u16) -> u16 {
    opcode % 0x100
}

/// Operand `NNN`: bits 0 to 11.
pub open spec fn operand_nnn(opcode: u16) -> u16 {
    opcode % 0x1000
}

impl Chip8Hardware {
    /// Extracts the operation family, the top nibble.
    pub fn get_family(opcode: u16) -> (top: u16)
        ensures
            top == family(opcode),
    {
        assert(opcode >> 12 == opcode / 0x1000) by (bit_vector);
        opcode >> 12
    }

    /// Extracts operand `X`.
    pub fn get_first_arg(opcode: u16) -> (argument: u16)
        ensures
            argument == operand_x(opcode),
    {
        assert((opcode & 0x0F00) >> 8 == (opcode / 0x100) % 0x10) by (bit_vector);
        (opcode & 0x0F00) >> 8
    }

    /// Extracts operand `Y`.
    pub fn get_second_arg(opcode: u16) -> (argument: u16)
        ensures
            argument == operand_y(opcode),
    {
        assert((opcode & 0x00F0) >> 4 == (opcode / 0x10) % 0x10) by (bit_vector);
        (opcode & 0x00F0) >> 4
    }

    /// Extracts operand `N`.
    pub fn get_n(opcode: u16) -> (argument: u16)
        ensures
            argument == operand_n(opcode),
    {
        assert(opcode & 0x000F == opcode % 0x10) by (bit_vector);
        opcode & 0x000F
    }

    /// Extracts operand `NN`.
    pub fn get_nn(opcode: u16) -> (argument: u16)
        ensures
            argument == operand_nn(opcode),
    {
        assert(opcode & 0x00FF == opcode % 0x100) by (bit_vector);
        opcode & 0x00FF
    }

    /// Extracts operand `NNN`.
    pub fn get_nnn(opcode: u16) -> (argument: u16)
        ensures
            argument == operand_nnn(opcode),
    {
        assert(opcode & 0x0FFF == opcode % 0x1000) by (bit_vector);
        opcode & 0x0FFF
    }
}

} // verus!
