//! The mathematical model of the machine and the meaning of every
//! instruction on it.
//!
//! [`MachineState`] is what a [`Chip8Hardware`](crate::machine::Chip8Hardware)
//! is as a value: sequences for memory, registers, the pending return
//! addresses, the pixel grid and the key latches, and a handful of scalars.
//! Each instruction is a function from one state to the next, or to a
//! [`Fault`]. The executable handlers are specified against these functions.
//!
//! Conventions that the instruction set leaves open are fixed here:
//!
//! * An instruction that produces both a flag and a result writes the flag
//!   to VF first and the result to Vx second. With `x = 0xF` the result is
//!   therefore what stays in VF.
//! * The shifts read and write Vx alone; Y is ignored.
//! * `ADD I,Vx` sets VF to 1 when the sum leaves the twelve-bit address
//!   range and to 0 otherwise; the address register itself wraps at sixteen
//!   bits.
//! * The program counter wraps at sixteen bits when a skip or a rewind
//!   moves it.
//! * The secondary dispatch of the families `0x0`, `0x8` and `0xE` looks at
//!   the low nibble only, that of `0xF` at the low byte.

use vstd::prelude::*;
use crate::decode::{family, operand_n, operand_nn, operand_nnn, operand_x, operand_y};
use crate::fault::{Fault, Report, UnknownOpcodePolicy};
use crate::font::FONTSET;

verus! {

/// Number of addressable bytes.
pub const MEMORY_SIZE: usize = 4096;

/// Address at which a program image is placed and at which execution starts.
pub const PROGRAM_START: usize = 0x200;

/// Largest program image that fits.
pub const MAX_ROM_SIZE: usize = 3584;

/// Number of return addresses the call stack holds.
pub const STACK_DEPTH: usize = 16;

/// Pixels in a row of the display.
pub const SCREEN_WIDTH: usize = 64;

/// Rows of the display.
pub const SCREEN_HEIGHT: usize = 32;

/// Cycles between two updates of the delay and sound timers.
pub const TIMER_PERIOD: u8 = 30;

/// The machine as a mathematical value.
#[verifier::ext_equal]
pub struct MachineState {
    /// The 4096 bytes of memory.
    pub memory: Seq<u8>,
    /// V0 to VF.
    pub registers: Seq<u8>,
    /// The address register I.
    pub index: u16,
    /// The program counter.
    pub pc: u16,
    /// The pending return addresses, oldest first.
    pub stack: Seq<u16>,
    /// The display: `screen[row][col]`, 32 rows of 64 pixels.
    pub screen: Seq<Seq<bool>>,
    /// The sixteen key latches; `true` is pressed.
    pub keys: Seq<bool>,
    pub delay_timer: u8,
    pub sound_timer: u8,
    /// Cycles left until the timers are next updated, from 1 to 30.
    pub countdown: u8,
    /// Set when the display changed and was not yet presented.
    pub dirty: bool,
    pub policy: UnknownOpcodePolicy,
}

/// A display with every pixel off.
pub open spec fn blank_screen() -> Seq<Seq<bool>> {
    Seq::new(32, |r: int| Seq::new(64, |c: int| false))
}

/// Whether pixel `col` of an eight-pixel sprite row is set, the leftmost
/// pixel being the most significant bit.
pub open spec fn sprite_bit(row: u8, col: u8) -> bool {
    row & (0x80u8 >> col) != 0
}

/// One timer step: down by one, staying at zero.
pub open spec fn count_down(timer: u8) -> u8 {
    if timer == 0 {
        0
    } else {
        (timer - 1) as u8
    }
}

/// Lifts the outcome of an instruction that reports nothing but completion.
pub open spec fn completed(outcome: Result<MachineState, Fault>) -> Result<
    (MachineState, Report),
    Fault,
> {
    match outcome {
        Ok(s) => Ok((s, Report::Completed)),
        Err(f) => Err(f),
    }
}

/// What a handler leaves behind, given the state `pre` it started from and
/// the model's `outcome`: on success the new state, on a fault the fault and
/// the state untouched.
pub open spec fn settles(
    pre: MachineState,
    outcome: Result<MachineState, Fault>,
    post: MachineState,
    result: Result<(), Fault>,
) -> bool {
    match outcome {
        Ok(s) => result is Ok && post == s,
        Err(f) => result == Err::<(), Fault>(f) && post == pre,
    }
}

/// What the dispatcher leaves behind, given the state `pre` it started from
/// and the model's `outcome`: on success the new state and the report, on a
/// fault the fault and the state untouched.
pub open spec fn dispatched(
    pre: MachineState,
    outcome: Result<(MachineState, Report), Fault>,
    post: MachineState,
    result: Result<Report, Fault>,
) -> bool {
    match outcome {
        Ok((s, report)) => result == Ok::<Report, Fault>(report) && post == s,
        Err(f) => result == Err::<Report, Fault>(f) && post == pre,
    }
}

/// What a cycle leaves behind, given the state `pre` it started from and
/// the byte that `RND` uses: the state and the result that
/// [`MachineState::cycle`] gives.
pub open spec fn cycled(
    pre: MachineState,
    random: u8,
    post: MachineState,
    result: Result<Report, Fault>,
) -> bool {
    post == pre.cycle(random).0 && result == pre.cycle(random).1
}

impl MachineState {
    /// The shape every reachable state has.
    pub open spec fn valid(self) -> bool {
        &&& self.memory.len() == MEMORY_SIZE
        &&& self.registers.len() == 16
        &&& self.stack.len() <= STACK_DEPTH
        &&& self.screen.len() == SCREEN_HEIGHT
        &&& forall|r: int|
            0 <= r < SCREEN_HEIGHT ==> (#[trigger] self.screen[r]).len() == SCREEN_WIDTH
        &&& self.keys.len() == 16
        &&& 1 <= self.countdown <= TIMER_PERIOD
    }

    /// A freshly constructed machine: everything zero, nothing loaded, not
    /// even the font, and the strict policy.
    pub open spec fn blank() -> MachineState {
        MachineState {
            memory: Seq::new(4096, |a: int| 0u8),
            registers: Seq::new(16, |i: int| 0u8),
            index: 0,
            pc: PROGRAM_START as u16,
            stack: Seq::empty(),
            screen: blank_screen(),
            keys: Seq::new(16, |k: int| false),
            delay_timer: 0,
            sound_timer: 0,
            countdown: TIMER_PERIOD,
            dirty: false,
            policy: UnknownOpcodePolicy::Abort,
        }
    }

    /// The state after a reset: as [`blank`](Self::blank) but with the font
    /// in the first 80 bytes of memory and the policy kept.
    pub open spec fn reset(self) -> MachineState {
        MachineState {
            memory: Seq::new(
                4096,
                |a: int|
                    if a < 80 {
                        FONTSET[a]
                    } else {
                        0u8
                    },
            ),
            policy: self.policy,
            ..Self::blank()
        }
    }

    /// Copies a program image to address `0x200`, or refuses one that does
    /// not fit.
    pub open spec fn load(self, rom: Seq<u8>) -> Result<MachineState, Fault> {
        if rom.len() > MAX_ROM_SIZE {
            Err(Fault::RomTooLarge { len: rom.len() as usize })
        } else {
            Ok(
                MachineState {
                    memory: Seq::new(
                        4096,
                        |a: int|
                            if PROGRAM_START <= a < PROGRAM_START + rom.len() {
                                rom[a - PROGRAM_START]
                            } else {
                                self.memory[a]
                            },
                    ),
                    ..self
                },
            )
        }
    }

    /// The address the instruction being executed was fetched from: the
    /// program counter stands two past it.
    pub open spec fn fetched_from(self) -> u16 {
        self.pc.wrapping_sub(2)
    }

    /// The instruction word that the two bytes at `address` make up, high
    /// byte first.
    pub open spec fn word_at(self, address: int) -> u16 {
        (self.memory[address] * 256 + self.memory[address + 1]) as u16
    }

    /// The instruction word at the program counter.
    pub open spec fn word_at_pc(self) -> u16 {
        self.word_at(self.pc as int)
    }

    /// Fetch: the word at the program counter and the state with the
    /// program counter two further, or a fault when the word does not lie
    /// inside memory.
    pub open spec fn fetch(self) -> Result<(MachineState, u16), Fault> {
        if self.pc + 1 >= MEMORY_SIZE {
            Err(Fault::FetchOutOfBounds { pc: self.pc })
        } else {
            Ok((MachineState { pc: (self.pc + 2) as u16, ..self }, self.word_at_pc()))
        }
    }

    /// Moves the program counter past the next instruction when `taken`.
    pub open spec fn skip_if(self, taken: bool) -> MachineState {
        if taken {
            MachineState { pc: self.pc.wrapping_add(2), ..self }
        } else {
            self
        }
    }

    /// Writes one register.
    pub open spec fn with_register(self, x: int, value: u8) -> MachineState {
        MachineState { registers: self.registers.update(x, value), ..self }
    }

    /// Writes `flag` to VF and then `value` to Vx.
    pub open spec fn with_flag_and_register(self, flag: u8, x: int, value: u8) -> MachineState {
        MachineState { registers: self.registers.update(15, flag).update(x, value), ..self }
    }

    /// `CLS`: every pixel off, display marked dirty.
    pub open spec fn cls(self) -> MachineState {
        MachineState { screen: blank_screen(), dirty: true, ..self }
    }

    /// `RET`: continue at the most recent return address.
    pub open spec fn ret(self) -> Result<MachineState, Fault> {
        if self.stack.len() == 0 {
            Err(Fault::StackUnderflow { pc: self.fetched_from() })
        } else {
            Ok(MachineState { pc: self.stack.last(), stack: self.stack.drop_last(), ..self })
        }
    }

    /// `JP addr`.
    pub open spec fn jp(self, addr: u16) -> MachineState {
        MachineState { pc: addr, ..self }
    }

    /// `CALL addr`: remember the program counter, which already names the
    /// instruction after the call, and continue at `addr`.
    pub open spec fn call(self, addr: u16) -> Result<MachineState, Fault> {
        if self.stack.len() >= STACK_DEPTH {
            Err(Fault::StackOverflow { pc: self.fetched_from() })
        } else {
            Ok(MachineState { pc: addr, stack: self.stack.push(self.pc), ..self })
        }
    }

    /// `SE Vx,NN`.
    pub open spec fn se_byte(self, x: int, nn: u16) -> MachineState {
        self.skip_if(self.registers[x] == nn)
    }

    /// `SNE Vx,NN`.
    pub open spec fn sne_byte(self, x: int, nn: u16) -> MachineState {
        self.skip_if(self.registers[x] != nn)
    }

    /// `SE Vx,Vy`.
    pub open spec fn se_reg(self, x: int, y: int) -> MachineState {
        self.skip_if(self.registers[x] == self.registers[y])
    }

    /// `SNE Vx,Vy`.
    pub open spec fn sne_reg(self, x: int, y: int) -> MachineState {
        self.skip_if(self.registers[x] != self.registers[y])
    }

    /// `LD Vx,NN`.
    pub open spec fn ld_byte(self, x: int, nn: u16) -> MachineState {
        self.with_register(x, (nn % 256) as u8)
    }

    /// `ADD Vx,NN`: sum modulo 256, VF untouched.
    pub open spec fn add_byte(self, x: int, nn: u16) -> MachineState {
        self.with_register(x, ((self.registers[x] + nn) % 256) as u8)
    }

    /// `LD Vx,Vy`.
    pub open spec fn ld_reg(self, x: int, y: int) -> MachineState {
        self.with_register(x, self.registers[y])
    }

    /// `OR Vx,Vy`.
    pub open spec fn or_reg(self, x: int, y: int) -> MachineState {
        self.with_register(x, self.registers[x] | self.registers[y])
    }

    /// `AND Vx,Vy`.
    pub open spec fn and_reg(self, x: int, y: int) -> MachineState {
        self.with_register(x, self.registers[x] & self.registers[y])
    }

    /// `XOR Vx,Vy`.
    pub open spec fn xor_reg(self, x: int, y: int) -> MachineState {
        self.with_register(x, self.registers[x] ^ self.registers[y])
    }

    /// `ADD Vx,Vy`: VF is the carry, Vx the sum modulo 256.
    pub open spec fn add_reg(self, x: int, y: int) -> MachineState {
        let sum: int = self.registers[x] + self.registers[y];
        self.with_flag_and_register(
            if sum > 255 {
                1
            } else {
                0
            },
            x,
            (sum % 256) as u8,
        )
    }

    /// `SUB Vx,Vy`: VF is 1 when nothing is borrowed, Vx the difference
    /// modulo 256.
    pub open spec fn sub_reg(self, x: int, y: int) -> MachineState {
        let a: u8 = self.registers[x];
        let b: u8 = self.registers[y];
        self.with_flag_and_register(
            if a >= b {
                1
            } else {
                0
            },
            x,
            ((a - b) % 256) as u8,
        )
    }

    /// `SUBN Vx,Vy`: as `SUB` with the operands exchanged.
    pub open spec fn subn_reg(self, x: int, y: int) -> MachineState {
        let a: u8 = self.registers[x];
        let b: u8 = self.registers[y];
        self.with_flag_and_register(
            if b >= a {
                1
            } else {
                0
            },
            x,
            ((b - a) % 256) as u8,
        )
    }

    /// `SHR Vx`: VF is the bit shifted out, Vx is halved.
    pub open spec fn shr(self, x: int) -> MachineState {
        let a: u8 = self.registers[x];
        self.with_flag_and_register(a % 2, x, a / 2)
    }

    /// `SHL Vx`: VF is the bit shifted out, Vx is doubled modulo 256.
    pub open spec fn shl(self, x: int) -> MachineState {
        let a: u8 = self.registers[x];
        self.with_flag_and_register(a / 128, x, ((a * 2) % 256) as u8)
    }

    /// `LD I,addr`.
    pub open spec fn ld_index(self, addr: u16) -> MachineState {
        MachineState { index: addr, ..self }
    }

    /// `JP V0,addr`.
    pub open spec fn jp_offset(self, addr: u16) -> MachineState {
        MachineState { pc: addr.wrapping_add(self.registers[0] as u16), ..self }
    }

    /// `RND Vx,NN`, given the byte that was drawn.
    pub open spec fn rnd(self, x: int, nn: u16, random: u8) -> MachineState {
        self.with_register(x, random & ((nn % 256) as u8))
    }

    /// Whether a sprite of `n` rows drawn at (`vx`, `vy`) flips the pixel at
    /// row `r`, column `c`. The sprite wraps round both edges; as it is at
    /// most 15 rows high and 8 pixels wide, it meets each pixel at most once.
    pub open spec fn sprite_covers(self, vx: u8, vy: u8, n: int, r: int, c: int) -> bool {
        let dy: int = (r - vy) % 32;
        let dx: int = (c - vx) % 64;
        dy < n && dx < 8 && sprite_bit(self.memory[self.index + dy], dx as u8)
    }

    /// Whether the sprite flips a pixel that is on.
    pub open spec fn sprite_collides(self, vx: u8, vy: u8, n: int) -> bool {
        exists|r: int, c: int|
            0 <= r < 32 && 0 <= c < 64 && self.screen[r][c] && #[trigger] self.sprite_covers(
                vx,
                vy,
                n,
                r,
                c,
            )
    }

    /// `DRW Vx,Vy,N`: the `n` bytes at I are XORed onto the display at
    /// (Vx, Vy); VF tells whether a pixel went from on to off.
    pub open spec fn draw(self, x: int, y: int, n: int) -> Result<MachineState, Fault> {
        let vx: u8 = self.registers[x];
        let vy: u8 = self.registers[y];
        if n > 0 && self.index + n > 4096 {
            Err(Fault::MemoryOutOfBounds { address: self.index, pc: self.fetched_from() })
        } else {
            Ok(
                MachineState {
                    screen: Seq::new(
                        32,
                        |r: int|
                            Seq::new(
                                64,
                                |c: int| self.screen[r][c] != self.sprite_covers(vx, vy, n, r, c),
                            ),
                    ),
                    registers: self.registers.update(
                        15,
                        if self.sprite_collides(vx, vy, n) {
                            1u8
                        } else {
                            0u8
                        },
                    ),
                    dirty: true,
                    ..self
                },
            )
        }
    }

    /// `SKP Vx` (`when_down`) and `SKNP Vx` (`!when_down`).
    pub open spec fn skip_on_key(self, x: int, when_down: bool) -> Result<MachineState, Fault> {
        let key: u8 = self.registers[x];
        if key >= 16 {
            Err(Fault::KeyOutOfRange { key, pc: self.fetched_from() })
        } else {
            Ok(self.skip_if(self.keys[key as int] == when_down))
        }
    }

    /// `LD Vx,DT`.
    pub open spec fn ld_from_delay(self, x: int) -> MachineState {
        self.with_register(x, self.delay_timer)
    }

    /// Whether `k` is a key that is down while no key above it is.
    pub open spec fn is_highest_key_down(self, k: int) -> bool {
        &&& 0 <= k < 16
        &&& self.keys[k]
        &&& forall|j: int| k < j < 16 ==> !self.keys[j]
    }

    /// Whether any key is down.
    pub open spec fn any_key_down(self) -> bool {
        exists|k: int| 0 <= k < 16 && self.keys[k]
    }

    /// The highest-numbered key that is down, where there is one.
    pub open spec fn highest_key_down(self) -> int {
        choose|k: int| self.is_highest_key_down(k)
    }

    /// `LD Vx,K`: with a key down, its number goes to Vx (the highest, if
    /// several are down); with none, the program counter goes back by two so
    /// that this instruction is fetched again.
    pub open spec fn wait_for_key(self, x: int) -> MachineState {
        if self.any_key_down() {
            self.with_register(x, self.highest_key_down() as u8)
        } else {
            MachineState { pc: self.pc.wrapping_sub(2), ..self }
        }
    }

    /// `LD DT,Vx`.
    pub open spec fn ld_delay(self, x: int) -> MachineState {
        MachineState { delay_timer: self.registers[x], ..self }
    }

    /// `LD ST,Vx`.
    pub open spec fn ld_sound(self, x: int) -> MachineState {
        MachineState { sound_timer: self.registers[x], ..self }
    }

    /// `ADD I,Vx`.
    pub open spec fn add_index(self, x: int) -> MachineState {
        let vx: u8 = self.registers[x];
        MachineState {
            index: self.index.wrapping_add(vx as u16),
            registers: self.registers.update(
                15,
                if self.index + vx > 0xFFF {
                    1u8
                } else {
                    0u8
                },
            ),
            ..self
        }
    }

    /// `LD F,Vx`: I points at the glyph for the value of Vx; the font starts
    /// at address 0 and a glyph takes five bytes.
    pub open spec fn ld_glyph(self, x: int) -> MachineState {
        MachineState { index: (self.registers[x] * 5) as u16, ..self }
    }

    /// `LD B,Vx`: the hundreds, tens and ones digit of Vx go to the three
    /// bytes at I.
    pub open spec fn store_bcd(self, x: int) -> Result<MachineState, Fault> {
        let v: u8 = self.registers[x];
        if self.index + 2 >= 4096 {
            Err(Fault::MemoryOutOfBounds { address: self.index, pc: self.fetched_from() })
        } else {
            Ok(
                MachineState {
                    memory: self.memory.update(self.index as int, v / 100).update(
                        self.index + 1,
                        (v / 10) % 10,
                    ).update(self.index + 2, v % 10),
                    ..self
                },
            )
        }
    }

    /// `LD [I],Vx`: V0 to Vx go to memory from I on; I stays.
    pub open spec fn store_registers(self, x: int) -> Result<MachineState, Fault> {
        if self.index + x >= 4096 {
            Err(Fault::MemoryOutOfBounds { address: self.index, pc: self.fetched_from() })
        } else {
            Ok(
                MachineState {
                    memory: Seq::new(
                        4096,
                        |a: int|
                            if self.index <= a <= self.index + x {
                                self.registers[a - self.index]
                            } else {
                                self.memory[a]
                            },
                    ),
                    ..self
                },
            )
        }
    }

    /// `LD Vx,[I]`: V0 to Vx are read from memory from I on; I stays.
    pub open spec fn load_registers(self, x: int) -> Result<MachineState, Fault> {
        if self.index + x >= 4096 {
            Err(Fault::MemoryOutOfBounds { address: self.index, pc: self.fetched_from() })
        } else {
            Ok(
                MachineState {
                    registers: Seq::new(
                        16,
                        |i: int|
                            if i <= x {
                                self.memory[self.index + i]
                            } else {
                                self.registers[i]
                            },
                    ),
                    ..self
                },
            )
        }
    }

    /// One step of the timer ticker: the countdown goes down by one; when it
    /// would reach zero it starts over at 30 and both timers count down.
    pub open spec fn tick(self) -> MachineState {
        if self.countdown <= 1 {
            MachineState {
                countdown: TIMER_PERIOD,
                delay_timer: count_down(self.delay_timer),
                sound_timer: count_down(self.sound_timer),
                ..self
            }
        } else {
            MachineState { countdown: (self.countdown - 1) as u8, ..self }
        }
    }

    /// An instruction word that names no operation: a fault under the
    /// strict policy, a report and no change under the permissive one.
    pub open spec fn unknown(self, opcode: u16) -> Result<(MachineState, Report), Fault> {
        match self.policy {
            UnknownOpcodePolicy::Abort => Err(
                Fault::UnknownOpcode { opcode, pc: self.fetched_from() },
            ),
            UnknownOpcodePolicy::Skip => Ok(
                (self, Report::UnknownOpcode { opcode, pc: self.fetched_from() }),
            ),
        }
    }

    /// Family `0x8`: register-to-register arithmetic, selected by the low
    /// nibble.
    pub open spec fn execute_arithmetic(self, opcode: u16) -> Result<
        (MachineState, Report),
        Fault,
    > {
        let x: int = operand_x(opcode) as int;
        let y: int = operand_y(opcode) as int;
        let n: u16 = operand_n(opcode);
        if n == 0x0 {
            completed(Ok(self.ld_reg(x, y)))
        } else if n == 0x1 {
            completed(Ok(self.or_reg(x, y)))
        } else if n == 0x2 {
            completed(Ok(self.and_reg(x, y)))
        } else if n == 0x3 {
            completed(Ok(self.xor_reg(x, y)))
        } else if n == 0x4 {
            completed(Ok(self.add_reg(x, y)))
        } else if n == 0x5 {
            completed(Ok(self.sub_reg(x, y)))
        } else if n == 0x6 {
            completed(Ok(self.shr(x)))
        } else if n == 0x7 {
            completed(Ok(self.subn_reg(x, y)))
        } else if n == 0xE {
            completed(Ok(self.shl(x)))
        } else {
            self.unknown(opcode)
        }
    }

    /// Family `0xF`: timers, keys and memory, selected by the low byte.
    pub open spec fn execute_misc(self, opcode: u16) -> Result<(MachineState, Report), Fault> {
        let x: int = operand_x(opcode) as int;
        let nn: u16 = operand_nn(opcode);
        if nn == 0x07 {
            completed(Ok(self.ld_from_delay(x)))
        } else if nn == 0x0A {
            Ok(
                (
                    self.wait_for_key(x),
                    if self.any_key_down() {
                        Report::Completed
                    } else {
                        Report::AwaitingKey { register: x as u8 }
                    },
                ),
            )
        } else if nn == 0x15 {
            completed(Ok(self.ld_delay(x)))
        } else if nn == 0x18 {
            completed(Ok(self.ld_sound(x)))
        } else if nn == 0x1E {
            completed(Ok(self.add_index(x)))
        } else if nn == 0x29 {
            completed(Ok(self.ld_glyph(x)))
        } else if nn == 0x33 {
            completed(self.store_bcd(x))
        } else if nn == 0x55 {
            completed(self.store_registers(x))
        } else if nn == 0x65 {
            completed(self.load_registers(x))
        } else {
            self.unknown(opcode)
        }
    }

    /// Decode and dispatch: what the instruction word `opcode` does to this
    /// state. `random` is the byte that `RND` uses; no other instruction
    /// looks at it.
    pub open spec fn execute(self, opcode: u16, random: u8) -> Result<
        (MachineState, Report),
        Fault,
    > {
        let f: u16 = family(opcode);
        let x: int = operand_x(opcode) as int;
        let y: int = operand_y(opcode) as int;
        let n: u16 = operand_n(opcode);
        let nn: u16 = operand_nn(opcode);
        let nnn: u16 = operand_nnn(opcode);
        if f == 0x0 {
            if n == 0x0 {
                completed(Ok(self.cls()))
            } else if n == 0xE {
                completed(self.ret())
            } else {
                self.unknown(opcode)
            }
        } else if f == 0x1 {
            completed(Ok(self.jp(nnn)))
        } else if f == 0x2 {
            completed(self.call(nnn))
        } else if f == 0x3 {
            completed(Ok(self.se_byte(x, nn)))
        } else if f == 0x4 {
            completed(Ok(self.sne_byte(x, nn)))
        } else if f == 0x5 {
            completed(Ok(self.se_reg(x, y)))
        } else if f == 0x6 {
            completed(Ok(self.ld_byte(x, nn)))
        } else if f == 0x7 {
            completed(Ok(self.add_byte(x, nn)))
        } else if f == 0x8 {
            self.execute_arithmetic(opcode)
        } else if f == 0x9 {
            completed(Ok(self.sne_reg(x, y)))
        } else if f == 0xA {
            completed(Ok(self.ld_index(nnn)))
        } else if f == 0xB {
            completed(Ok(self.jp_offset(nnn)))
        } else if f == 0xC {
            completed(Ok(self.rnd(x, nn, random)))
        } else if f == 0xD {
            completed(self.draw(x, y, n as int))
        } else if f == 0xE {
            if n == 0xE {
                completed(self.skip_on_key(x, true))
            } else if n == 0x1 {
                completed(self.skip_on_key(x, false))
            } else {
                self.unknown(opcode)
            }
        } else {
            self.execute_misc(opcode)
        }
    }

    /// One cycle of the driving loop: fetch, decode and dispatch, tick. The
    /// state that is left and what the cycle reports. A fetch that fails
    /// leaves the state as it was; a dispatch that fails leaves it as the
    /// fetch left it, program counter advanced, and the timers are not
    /// ticked.
    pub open spec fn cycle(self, random: u8) -> (MachineState, Result<Report, Fault>) {
        match self.fetch() {
            Err(fault) => (self, Err(fault)),
            Ok((fetched, word)) => match fetched.execute(word, random) {
                Err(fault) => (fetched, Err(fault)),
                Ok((executed, report)) => (executed.tick(), Ok(report)),
            },
        }
    }
}

} // verus!
