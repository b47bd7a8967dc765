//! The ways in which the machine reports that an instruction did not run to
//! completion, and the option that selects what an unrecognised instruction
//! word does.

use vstd::prelude::*;

verus! {

/// What the dispatcher does with an instruction word that names no operation
/// inside a recognised family.
#[derive(Clone, Copy, Debug, PartialEq, Eq, Structural)]
pub enum UnknownOpcodePolicy {
    /// Strict: the word is a fatal fault and emulation stops.
    Abort,
    /// Permissive: the word is reported and otherwise ignored.
    Skip,
}

/// A condition that ends emulation of this machine, or that the loader
/// hands back to its caller.
///
/// Wherever a `pc` is carried it is the address the offending instruction was
/// fetched from, not the already advanced program counter.
#[derive(Clone, Copy, Debug, PartialEq, Eq, Structural)]
pub enum Fault {
    /// The instruction word matches no operation and the policy is `Abort`.
    UnknownOpcode { opcode: u16, pc: u16 },
    /// `CALL` with sixteen return addresses already pending.
    StackOverflow { pc: u16 },
    /// `RET` with no return address pending.
    StackUnderflow { pc: u16 },
    /// The two bytes of the next instruction do not both lie inside memory.
    FetchOutOfBounds { pc: u16 },
    /// An instruction would read or write through the address register past
    /// the end of memory; `address` is the value of the address register.
    MemoryOutOfBounds { address: u16, pc: u16 },
    /// `SKP` or `SKNP` named a key that the keypad does not have.
    KeyOutOfRange { key: u8, pc: u16 },
    /// The program image does not fit between the load address and the end
    /// of memory.
    RomTooLarge { len: usize },
}

/// What a successfully dispatched instruction tells the driving loop.
#[derive(Clone, Copy, Debug, PartialEq, Eq, Structural)]
pub enum Report {
    /// The instruction ran to completion.
    Completed,
    /// `LD Vx,K` found no key down: the program counter was moved back so
    /// that the same instruction is fetched again on the next cycle.
    AwaitingKey { register: u8 },
    /// The word matched no operation and the policy is `Skip`: nothing was
    /// changed. `pc` is the address the word was fetched from.
    UnknownOpcode { opcode: u16, pc: u16 },
}

} // verus!
