//! A CHIP-8 virtual machine: memory, registers, call stack, display, timers
//! and keypad, and the interpreter for its instruction set.
//!
//! The driving loop belongs to the caller. Once per cycle it calls
//! [`Chip8Hardware::cycle`], which is [`Chip8Hardware::fetch_opcode`], then
//! [`Chip8Hardware::decode_and_execute_opcode`], then
//! [`Chip8Hardware::decrement_timer_counter`]; between cycles it forwards key
//! events with [`Chip8Hardware::set_key`] and presents the display when it is
//! dirty.
//!
//! What each operation does is stated over [`MachineState`], the
//! mathematical value of a machine; see the module [`state`].

pub mod alu;
pub mod decode;
pub mod dispatch;
pub mod display;
pub mod fault;
pub mod flow;
pub mod font;
pub mod keypad;
pub mod laws;
pub mod machine;
pub mod pointer;
pub mod random;
pub mod registers;
pub mod state;
pub mod timers;

pub use crate::fault::{Fault, Report, UnknownOpcodePolicy};
pub use crate::machine::Chip8Hardware;
pub use crate::state::MachineState;
