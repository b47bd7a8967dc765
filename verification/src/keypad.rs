//! The keypad: the latches that the input side sets, and the instructions
//! that read them.

use vstd::prelude::*;
use crate::decode::operand_x;
use crate::fault::Fault;
use crate::machine::Chip8Hardware;
use crate::state::{settles, MachineState};

verus! {

/// At most one key is the highest one down: whichever satisfies
/// `is_highest_key_down` is the key that `highest_key_down` names.
pub proof fn lemma_highest_key_is_unique(s: MachineState, k: int)
    requires
        s.is_highest_key_down(k),
    ensures
        s.any_key_down(),
        s.highest_key_down() == k,
{
    let chosen: int = s.highest_key_down();
    assert(s.is_highest_key_down(chosen));
    if chosen < k {
        assert(!s.keys[k]);
    }
    if k < chosen {
        assert(!s.keys[chosen]);
    }
}

impl Chip8Hardware {
    /// Records that key `key` is now pressed or released. This is the one
    /// entry for the input side; no instruction writes the latches.
    pub fn set_key(&mut self, key: usize, pressed: bool)
        requires
            old(self).wf(),
            key < 16,
        ensures
            final(self).wf(),
            final(self)@ == (MachineState {
                keys: old(self)@.keys.update(key as int, pressed),
                ..old(self)@
            }),
    {
        self.keyboard[key] = pressed;
        assert(self@ =~~= (MachineState {
            keys: old(self)@.keys.update(key as int, pressed),
            ..old(self)@
        }));
    }

    /// Whether key `key` is pressed.
    pub fn is_key_pressed(&self, key: usize) -> (pressed: bool)
        requires
            key < 16,
        ensures
            pressed == self@.keys[key as int],
    {
        self.keyboard[key]
    }

    /// The highest-numbered key that is pressed, if any is.
    pub fn pressed_key(&self) -> (key: Option<u8>)
        ensures
            key is Some <==> self@.any_key_down(),
            key is Some ==> self@.is_highest_key_down(key->Some_0 as int) && key->Some_0
                == self@.highest_key_down(),
    {
        let mut found: Option<u8> = None;
        let mut i: u8 = 0;
        while i < 16
            invariant
                i <= 16,
                match found {
                    Some(k) => k < i && self.keyboard@[k as int] && forall|j: int|
                        k < j < i ==> !self.keyboard@[j],
                    None => forall|j: int| 0 <= j < i ==> !self.keyboard@[j],
                },
            decreases 16 - i,
        {
            if self.keyboard[i as usize] {
                found = Some(i);
            }
            i += 1;
        }
        proof {
            if let Some(k) = found {
                lemma_highest_key_is_unique(self@, k as int);
            }
        }
        found
    }

    /// `SKP Vx`: skip the next instruction when the key that Vx names is
    /// pressed. A value of Vx above 15 names no key: a fault, and nothing
    /// changes.
    #[allow(non_snake_case)]
    pub fn opcode_EX9E(&mut self, opcode: u16) -> (result: Result<(), Fault>)
        requires
            old(self).wf(),
        ensures
            final(self).wf(),
            settles(
                old(self)@,
                old(self)@.skip_on_key(operand_x(opcode) as int, true),
                final(self)@,
                result,
            ),
            result is Ok <==> old(self)@.registers[operand_x(opcode) as int] < 16,
    {
        let index: u16 = Chip8Hardware::get_first_arg(opcode);
        let value_x: u16 = self.get_register_value(index);
        if value_x >= 16 {
            return Err(
                Fault::KeyOutOfRange {
                    key: value_x as u8,
                    pc: self.program_counter.wrapping_sub(2),
                },
            );
        }
        if self.keyboard[value_x as usize] {
            self.skip_instruction();
        }
        Ok(())
    }

    /// `SKNP Vx`: skip the next instruction when the key that Vx names is
    /// not pressed. A value of Vx above 15 names no key: a fault, and
    /// nothing changes.
    #[allow(non_snake_case)]
    pub fn opcode_EXA1(&mut self, opcode: u16) -> (result: Result<(), Fault>)
        requires
            old(self).wf(),
        ensures
            final(self).wf(),
            settles(
                old(self)@,
                old(self)@.skip_on_key(operand_x(opcode) as int, false),
                final(self)@,
                result,
            ),
            result is Ok <==> old(self)@.registers[operand_x(opcode) as int] < 16,
    {
        let index: u16 = Chip8Hardware::get_first_arg(opcode);
        let value_x: u16 = self.get_register_value(index);
        if value_x >= 16 {
            return Err(
                Fault::KeyOutOfRange {
                    key: value_x as u8,
                    pc: self.program_counter.wrapping_sub(2),
                },
            );
        }
        if !self.keyboard[value_x as usize] {
            self.skip_instruction();
        }
        Ok(())
    }

    /// `LD Vx,K`: with a key pressed, Vx becomes its number (the highest, if
    /// several are pressed); with none, the program counter goes back by two
    /// so that the next fetch yields this instruction again.
    #[allow(non_snake_case)]
    pub fn opcode_FX0A(&mut self, opcode: u16)
        requires
            old(self).wf(),
        ensures
            final(self).wf(),
            final(self)@ == old(self)@.wait_for_key(operand_x(opcode) as int),
            !old(self)@.any_key_down() ==> final(self)@.pc == old(self)@.pc.wrapping_sub(2),
    {
        let index_x: u16 = Chip8Hardware::get_first_arg(opcode);
        match self.pressed_key() {
            Some(key) => {
                self.set_register_value(index_x, key as u16);
            },
            None => {
                self.program_counter = self.program_counter.wrapping_sub(2);
            },
        }
    }
}

} // verus!
