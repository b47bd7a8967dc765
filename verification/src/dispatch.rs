//! Fetch, decode and dispatch.

use vstd::prelude::*;
use crate::decode::{family, operand_nn, operand_x};
use crate::fault::{Fault, Report, UnknownOpcodePolicy};
use crate::machine::Chip8Hardware;
use crate::state::{cycled, dispatched, MEMORY_SIZE};

verus! {

/// Turns the result of a handler that reports nothing into the result of a
/// dispatch.
fn finished(outcome: Result<(), Fault>) -> (result: Result<Report, Fault>)
    ensures
        result == match outcome {
            Ok(_) => Ok::<Report, Fault>(Report::Completed),
            Err(fault) => Err(fault),
        },
{
    match outcome {
        Ok(_) => Ok(Report::Completed),
        Err(fault) => Err(fault),
    }
}

impl Chip8Hardware {
    /// Fetch: stores the instruction word at the program counter, high byte
    /// first, in `opcode_value` and advances the program counter by exactly
    /// two. Nothing else changes. If the two bytes do not both lie inside
    /// memory this is a fault; then the program counter stays and
    /// `opcode_value` is not written.
    pub fn fetch_opcode(&mut self, opcode_value: &mut u16) -> (result: Result<(), Fault>)
        requires
            old(self).wf(),
        ensures
            final(self).wf(),
            match old(self)@.fetch() {
                Ok((state, word)) => result is Ok && final(self)@ == state && *final(opcode_value)
                    == word,
                Err(fault) => result == Err::<(), Fault>(fault) && final(self)@ == old(self)@
                    && *final(opcode_value) == *old(opcode_value),
            },
            result is Ok <==> old(self)@.pc + 1 < 4096,
            result is Ok ==> final(self)@.pc == old(self)@.pc + 2,
    {
        if self.program_counter as usize + 1 >= MEMORY_SIZE {
            return Err(Fault::FetchOutOfBounds { pc: self.program_counter });
        }
        let high: u16 = self.memory[self.program_counter as usize] as u16;
        let low: u16 = self.memory[self.program_counter as usize + 1] as u16;
        assert((high << 8) | low == high * 256 + low) by (bit_vector)
            requires
                high < 256,
                low < 256,
        ;
        *opcode_value = (high << 8) | low;
        self.program_counter += 2;
        Ok(())
    }

    /// What an instruction word that names no operation results in under the
    /// policy in force. The machine is not changed.
    pub fn unknown_opcode(&self, opcode: u16) -> (result: Result<Report, Fault>)
        ensures
            dispatched(self@, self@.unknown(opcode), self@, result),
    {
        let pc: u16 = self.program_counter.wrapping_sub(2);
        match self.policy {
            UnknownOpcodePolicy::Abort => Err(Fault::UnknownOpcode { opcode, pc }),
            UnknownOpcodePolicy::Skip => Ok(Report::UnknownOpcode { opcode, pc }),
        }
    }

    /// Family `0x8`, selected by the low nibble.
    fn execute_arithmetic(&mut self, opcode: u16) -> (result: Result<Report, Fault>)
        requires
            old(self).wf(),
        ensures
            final(self).wf(),
            dispatched(old(self)@, old(self)@.execute_arithmetic(opcode), final(self)@, result),
    {
        let selector: u16 = Chip8Hardware::get_n(opcode);
        if selector == 0x0 {
            self.opcode_8XY0(opcode);
        } else if selector == 0x1 {
            self.opcode_8XY1(opcode);
        } else if selector == 0x2 {
            self.opcode_8XY2(opcode);
        } else if selector == 0x3 {
            self.opcode_8XY3(opcode);
        } else if selector == 0x4 {
            self.opcode_8XY4(opcode);
        } else if selector == 0x5 {
            self.opcode_8XY5(opcode);
        } else if selector == 0x6 {
            self.opcode_8XY6(opcode);
        } else if selector == 0x7 {
            self.opcode_8XY7(opcode);
        } else if selector == 0xE {
            self.opcode_8XYE(opcode);
        } else {
            return self.unknown_opcode(opcode);
        }
        Ok(Report::Completed)
    }

    /// Family `0xF`, selected by the low byte.
    fn execute_misc(&mut self, opcode: u16) -> (result: Result<Report, Fault>)
        requires
            old(self).wf(),
        ensures
            final(self).wf(),
            dispatched(old(self)@, old(self)@.execute_misc(opcode), final(self)@, result),
    {
        let selector: u16 = Chip8Hardware::get_nn(opcode);
        if selector == 0x07 {
            self.opcode_FX07(opcode);
        } else if selector == 0x0A {
            let waiting: bool = self.pressed_key().is_none();
            self.opcode_FX0A(opcode);
            if waiting {
                let register: u16 = Chip8Hardware::get_first_arg(opcode);
                return Ok(Report::AwaitingKey { register: register as u8 });
            }
        } else if selector == 0x15 {
            self.opcode_FX15(opcode);
        } else if selector == 0x18 {
            self.opcode_FX18(opcode);
        } else if selector == 0x1E {
            self.opcode_FX1E(opcode);
        } else if selector == 0x29 {
            self.opcode_FX29(opcode);
        } else if selector == 0x33 {
            return finished(self.opcode_FX33(opcode));
        } else if selector == 0x55 {
            return finished(self.opcode_FX55(opcode));
        } else if selector == 0x65 {
            return finished(self.opcode_FX65(opcode));
        } else {
            return self.unknown_opcode(opcode);
        }
        Ok(Report::Completed)
    }

    /// Decode and dispatch with the random byte supplied by the caller: the
    /// machine does to itself what
    /// [`MachineState::execute`](crate::state::MachineState::execute) says the word
    /// `opcode` does, and the report or the fault is the one given there. On
    /// a fault nothing has changed. Only `RND` looks at `random`.
    pub fn decode_and_execute_with(&mut self, opcode: u16, random: u8) -> (result: Result<
        Report,
        Fault,
    >)
        requires
            old(self).wf(),
        ensures
            final(self).wf(),
            dispatched(old(self)@, old(self)@.execute(opcode, random), final(self)@, result),
    {
        let top: u16 = Chip8Hardware::get_family(opcode);
        let low: u16 = Chip8Hardware::get_n(opcode);
        if top == 0x0 {
            if low == 0x0 {
                self.opcode_00E0();
            } else if low == 0xE {
                return finished(self.opcode_00EE());
            } else {
                return self.unknown_opcode(opcode);
            }
        } else if top == 0x1 {
            self.opcode_1NNN(opcode);
        } else if top == 0x2 {
            return finished(self.opcode_2NNN(opcode));
        } else if top == 0x3 {
            self.opcode_3XNN(opcode);
        } else if top == 0x4 {
            self.opcode_4XNN(opcode);
        } else if top == 0x5 {
            self.opcode_5XY0(opcode);
        } else if top == 0x6 {
            self.opcode_6XNN(opcode);
        } else if top == 0x7 {
            self.opcode_7XNN(opcode);
        } else if top == 0x8 {
            return self.execute_arithmetic(opcode);
        } else if top == 0x9 {
            self.opcode_9XY0(opcode);
        } else if top == 0xA {
            self.opcode_ANNN(opcode);
        } else if top == 0xB {
            self.opcode_BNNN(opcode);
        } else if top == 0xC {
            self.opcode_CXNN_with(opcode, random);
        } else if top == 0xD {
            return finished(self.opcode_DXYN(opcode));
        } else if top == 0xE {
            if low == 0xE {
                return finished(self.opcode_EX9E(opcode));
            } else if low == 0x1 {
                return finished(self.opcode_EXA1(opcode));
            } else {
                return self.unknown_opcode(opcode);
            }
        } else {
            return self.execute_misc(opcode);
        }
        Ok(Report::Completed)
    }

    /// Decode and dispatch. For every instruction but `RND` this is
    /// [`decode_and_execute_with`](Self::decode_and_execute_with); for `RND`
    /// a random byte is drawn first, and the outcome is the one that
    /// function gives for the byte drawn.
    pub fn decode_and_execute_opcode(&mut self, opcode: u16) -> (result: Result<Report, Fault>)
        requires
            old(self).wf(),
        ensures
            final(self).wf(),
            exists|random: u8|
                dispatched(
                    old(self)@,
                    #[trigger] old(self)@.execute(opcode, random),
                    final(self)@,
                    result,
                ),
            family(opcode) != 0xC ==> dispatched(
                old(self)@,
                old(self)@.execute(opcode, 0),
                final(self)@,
                result,
            ),
    {
        if Chip8Hardware::get_family(opcode) == 0xC {
            self.opcode_CXNN(opcode);
            proof {
                let pre = old(self)@;
                let x: int = operand_x(opcode) as int;
                let nn: u16 = operand_nn(opcode);
                let random: u8 = choose|random: u8| self@ == #[trigger] pre.rnd(x, nn, random);
                assert(dispatched(
                    pre,
                    pre.execute(opcode, random),
                    self@,
                    Ok::<Report, Fault>(Report::Completed),
                ));
            }
            Ok(Report::Completed)
        } else {
            self.decode_and_execute_with(opcode, 0)
        }
    }

    /// One cycle with the random byte supplied by the caller: fetch, decode
    /// and dispatch, tick. A fault ends the cycle where it occurs: after a
    /// failed fetch nothing has changed, after a failed dispatch only the
    /// program counter has moved on, and the fault names the address the
    /// instruction came from.
    pub fn cycle_with(&mut self, random: u8) -> (result: Result<Report, Fault>)
        requires
            old(self).wf(),
        ensures
            final(self).wf(),
            cycled(old(self)@, random, final(self)@, result),
    {
        let mut opcode: u16 = 0;
        if let Err(fault) = self.fetch_opcode(&mut opcode) {
            return Err(fault);
        }
        match self.decode_and_execute_with(opcode, random) {
            Ok(report) => {
                self.decrement_timer_counter();
                Ok(report)
            },
            Err(fault) => Err(fault),
        }
    }

    /// One cycle: fetch, decode and dispatch, tick. The outcome is the one
    /// that [`cycle_with`](Self::cycle_with) gives for the byte that `RND`
    /// drew, if the instruction was one.
    pub fn cycle(&mut self) -> (result: Result<Report, Fault>)
        requires
            old(self).wf(),
        ensures
            final(self).wf(),
            exists|random: u8| #[trigger] cycled(old(self)@, random, final(self)@, result),
    {
        let mut opcode: u16 = 0;
        if let Err(fault) = self.fetch_opcode(&mut opcode) {
            assert(cycled(old(self)@, 0, self@, Err::<Report, Fault>(fault)));
            return Err(fault);
        }
        let ghost fetched = self@;
        let outcome = self.decode_and_execute_opcode(opcode);
        let ghost random: u8 = choose|random: u8|
            dispatched(fetched, #[trigger] fetched.execute(opcode, random), self@, outcome);
        if outcome.is_ok() {
            self.decrement_timer_counter();
        }
        assert(cycled(old(self)@, random, self@, outcome));
        outcome
    }
}

} // verus!
