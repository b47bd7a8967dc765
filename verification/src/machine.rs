//! The machine itself: its storage, construction, reset and program load.

use vstd::prelude::*;
use crate::fault::{Fault, UnknownOpcodePolicy};
use crate::font::FONTSET;
use crate::state::{settles, MachineState, MAX_ROM_SIZE, PROGRAM_START, TIMER_PERIOD};

verus! {

/// A CHIP-8 machine.
///
/// Its value is the [`MachineState`] that [`view`](View::view) gives; every
/// operation is specified as a function on that state.
pub struct Chip8Hardware {
    pub(crate) keyboard: [bool; 16],
    pub(crate) address_i: u16,
    pub(crate) program_counter: u16,
    pub(crate) registers: [u8; 16],
    pub(crate) memory: [u8; 4096],
    pub(crate) stack: [u16; 16],
    pub(crate) stack_pointer: usize,
    pub(crate) screen_data: [[bool; 64]; 32],
    pub(crate) delay_timer: u8,
    pub(crate) sound_timer: u8,
    pub(crate) timer_counter: u8,
    pub(crate) draw_enabled: bool,
    pub(crate) policy: UnknownOpcodePolicy,
}

impl View for Chip8Hardware {
    type V = MachineState;

    open(crate) spec fn view(&self) -> MachineState {
        MachineState {
            memory: self.memory@,
            registers: self.registers@,
            index: self.address_i,
            pc: self.program_counter,
            stack: self.stack@.take(self.stack_pointer as int),
            screen: Seq::new(32, |r: int| self.screen_data@[r]@),
            keys: self.keyboard@,
            delay_timer: self.delay_timer,
            sound_timer: self.sound_timer,
            countdown: self.timer_counter,
            dirty: self.draw_enabled,
            policy: self.policy,
        }
    }
}

impl Chip8Hardware {
    /// The invariant of the representation: the stack pointer stays within
    /// the stack and the timer countdown within its period.
    pub open(crate) spec fn wf(&self) -> bool {
        &&& self.stack_pointer <= self.stack@.len()
        &&& 1 <= self.timer_counter <= TIMER_PERIOD
    }

    /// A well-formed machine is a valid state.
    pub proof fn lemma_view_valid(&self)
        requires
            self.wf(),
        ensures
            self@.valid(),
    {
    }

    /// A machine with everything zero, the program counter at `0x200`, no
    /// font and no program in memory, and the strict unknown-opcode policy.
    pub fn new() -> (machine: Chip8Hardware)
        ensures
            machine.wf(),
            machine@ == MachineState::blank(),
    {
        let machine = Chip8Hardware {
            keyboard: [false; 16],
            address_i: 0,
            program_counter: PROGRAM_START as u16,
            registers: [0u8; 16],
            memory: [0u8; 4096],
            stack: [0u16; 16],
            stack_pointer: 0,
            screen_data: [[false; 64]; 32],
            delay_timer: 0,
            sound_timer: 0,
            timer_counter: TIMER_PERIOD,
            draw_enabled: false,
            policy: UnknownOpcodePolicy::Abort,
        };
        assert(machine@ =~~= MachineState::blank());
        machine
    }

    /// Puts the machine into its start state: registers, timers, stack,
    /// keys, display and memory cleared, the program counter at `0x200`, the
    /// font installed at address 0. The unknown-opcode policy is kept.
    pub fn cpu_reset(&mut self)
        ensures
            final(self).wf(),
            final(self)@ == old(self)@.reset(),
    {
        let mut memory: [u8; 4096] = [0u8; 4096];
        let mut i: usize = 0;
        while i < 80
            invariant
                i <= 80,
                forall|a: int| 0 <= a < i ==> memory@[a] == FONTSET[a],
                forall|a: int| i <= a < 4096 ==> memory@[a] == 0,
            decreases 80 - i,
        {
            memory[i] = FONTSET[i];
            i += 1;
        }
        self.memory = memory;
        self.screen_data = [[false; 64]; 32];
        self.stack = [0u16; 16];
        self.stack_pointer = 0;
        self.keyboard = [false; 16];
        self.address_i = 0;
        self.registers = [0u8; 16];
        self.program_counter = PROGRAM_START as u16;
        self.delay_timer = 0;
        self.sound_timer = 0;
        self.timer_counter = TIMER_PERIOD;
        self.draw_enabled = false;
        assert(self@ =~~= old(self)@.reset());
    }

    /// Selects what an unrecognised instruction word does.
    pub fn set_unknown_opcode_policy(&mut self, policy: UnknownOpcodePolicy)
        requires
            old(self).wf(),
        ensures
            final(self).wf(),
            final(self)@ == (MachineState { policy, ..old(self)@ }),
    {
        self.policy = policy;
    }

    /// Copies a program image into memory from address `0x200` on. An image
    /// longer than 3584 bytes is refused and nothing is written.
    pub fn load_game(&mut self, rom: &[u8]) -> (result: Result<(), Fault>)
        requires
            old(self).wf(),
        ensures
            final(self).wf(),
            settles(old(self)@, old(self)@.load(rom@), final(self)@, result),
            result is Ok <==> rom@.len() <= MAX_ROM_SIZE,
    {
        let len: usize = rom.len();
        if len > MAX_ROM_SIZE {
            return Err(Fault::RomTooLarge { len });
        }
        let mut i: usize = 0;
        while i < len
            invariant
                i <= len,
                len == rom@.len(),
                len <= MAX_ROM_SIZE,
                forall|a: int|
                    PROGRAM_START <= a < PROGRAM_START + i ==> self.memory@[a] == rom@[a
                        - PROGRAM_START],
                forall|a: int|
                    0 <= a < 4096 && !(PROGRAM_START <= a < PROGRAM_START + i) ==> self.memory@[a]
                        == old(self).memory@[a],
                self.wf(),
                (MachineState { memory: old(self)@.memory, ..self@ }) == old(self)@,
            decreases len - i,
        {
            self.memory[i + PROGRAM_START] = rom[i];
            i += 1;
        }
        assert(self@ =~~= old(self)@.load(rom@)->Ok_0);
        Ok(())
    }
}

} // verus!
