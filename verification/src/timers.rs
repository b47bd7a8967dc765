//! The delay and sound timers and the ticker that counts them down.

use vstd::prelude::*;
use crate::decode::operand_x;
use crate::machine::Chip8Hardware;
use crate::state::TIMER_PERIOD;

verus! {

impl Chip8Hardware {
    /// `LD Vx,DT`.
    #[allow(non_snake_case)]
    pub fn opcode_FX07(&mut self, opcode: u16)
        requires
            old(self).wf(),
        ensures
            final(self).wf(),
            final(self)@ == old(self)@.ld_from_delay(operand_x(opcode) as int),
    {
        let index_x: u16 = Chip8Hardware::get_first_arg(opcode);
        self.set_register_value(index_x, self.delay_timer as u16);
    }

    /// `LD DT,Vx`.
    #[allow(non_snake_case)]
    pub fn opcode_FX15(&mut self, opcode: u16)
        requires
            old(self).wf(),
        ensures
            final(self).wf(),
            final(self)@ == old(self)@.ld_delay(operand_x(opcode) as int),
    {
        let index_x: u16 = Chip8Hardware::get_first_arg(opcode);
        let x: u16 = self.get_register_value(index_x);
        self.delay_timer = x as u8;
    }

    /// `LD ST,Vx`.
    #[allow(non_snake_case)]
    pub fn opcode_FX18(&mut self, opcode: u16)
        requires
            old(self).wf(),
        ensures
            final(self).wf(),
            final(self)@ == old(self)@.ld_sound(operand_x(opcode) as int),
    {
        let index_x: u16 = Chip8Hardware::get_first_arg(opcode);
        let x: u16 = self.get_register_value(index_x);
        self.sound_timer = x as u8;
    }

    /// The timer ticker, to be called once per cycle. Every thirtieth call
    /// counts the delay timer and the sound timer down by one each, a timer
    /// at zero staying there; the other calls only advance the countdown.
    pub fn decrement_timer_counter(&mut self)
        requires
            old(self).wf(),
        ensures
            final(self).wf(),
            final(self)@ == old(self)@.tick(),
    {
        self.timer_counter -= 1;
        if self.timer_counter == 0 {
            self.timer_counter = TIMER_PERIOD;
            if self.sound_timer > 0 {
                self.sound_timer -= 1;
            }
            if self.delay_timer > 0 {
                self.delay_timer -= 1;
            }
        }
    }

    /// The delay timer.
    pub fn delay_timer(&self) -> (value: u8)
        ensures
            value == self@.delay_timer,
    {
        self.delay_timer
    }

    /// The sound timer.
    pub fn sound_timer(&self) -> (value: u8)
        ensures
            value == self@.sound_timer,
    {
        self.sound_timer
    }

    /// Whether the tone should sound: it does while the sound timer is not
    /// zero.
    pub fn is_sound_active(&self) -> (active: bool)
        ensures
            active == (self@.sound_timer > 0),
    {
        self.sound_timer > 0
    }
}

} // verus!
