//! Properties of the instruction set that hold of every state, proved of the
//! model that the machine is specified against.

use vstd::prelude::*;
use crate::decode::{family, operand_n, operand_nn, operand_nnn, operand_x, operand_y};
use crate::fault::{Fault, Report};
use crate::keypad::lemma_highest_key_is_unique;
use crate::state::MachineState;

verus! {

/// Calls made one after the other with no return in between, each to the
/// next address of `addrs`.
pub open spec fn call_all(s: MachineState, addrs: Seq<u16>) -> Result<MachineState, Fault>
    decreases addrs.len(),
{
    if addrs.len() == 0 {
        Ok(s)
    } else {
        match call_all(s, addrs.drop_last()) {
            Ok(t) => t.call(addrs.last()),
            Err(f) => Err(f),
        }
    }
}

/// The decoder is total and its fields overlap in the only way the layout
/// allows: every word is its family followed by `NNN`, `NNN` is `X`
/// followed by `NN`, and `NN` is `Y` followed by `N`.
pub proof fn lemma_fields_recompose(opcode: u16)
    ensures
        opcode == family(opcode) * 0x1000 + operand_nnn(opcode),
        operand_nnn(opcode) == operand_x(opcode) * 0x100 + operand_nn(opcode),
        operand_nn(opcode) == operand_y(opcode) * 0x10 + operand_n(opcode),
        family(opcode) < 16,
        operand_x(opcode) < 16,
        operand_y(opcode) < 16,
        operand_n(opcode) < 16,
{
}

/// Every instruction leaves a valid state valid. In particular the number
/// of pending return addresses never exceeds sixteen, whatever is executed.
pub proof fn lemma_execute_preserves_valid(s: MachineState, opcode: u16, random: u8)
    requires
        s.valid(),
    ensures
        s.execute(opcode, random) matches Ok((t, _)) ==> t.valid(),
{
}

/// What instructions leave alone. No instruction writes the key latches,
/// the policy or the ticker's countdown. Only `LD DT,Vx` writes the delay
/// timer and only `LD ST,Vx` the sound timer. Only `CLS` and `DRW` write
/// the display or its dirty flag, and they set the flag. Only `LD B,Vx` and
/// `LD [I],Vx` write memory.
pub proof fn lemma_instructions_leave_alone(s: MachineState, opcode: u16, random: u8)
    requires
        s.valid(),
    ensures
        s.execute(opcode, random) matches Ok((t, _)) ==> {
            let f: u16 = family(opcode);
            let nn: u16 = operand_nn(opcode);
            let draws = f == 0xD || (f == 0x0 && operand_n(opcode) == 0x0);
            &&& t.keys == s.keys
            &&& t.policy == s.policy
            &&& t.countdown == s.countdown
            &&& !(f == 0xF && nn == 0x15) ==> t.delay_timer == s.delay_timer
            &&& !(f == 0xF && nn == 0x18) ==> t.sound_timer == s.sound_timer
            &&& draws ==> t.dirty
            &&& !draws ==> t.screen == s.screen && t.dirty == s.dirty
            &&& !(f == 0xF && (nn == 0x33 || nn == 0x55)) ==> t.memory == s.memory
        },
{
}

/// The ticker writes the timers and its countdown and nothing else; a
/// timer never goes up and never below zero.
pub proof fn lemma_tick_counts_down(s: MachineState)
    requires
        s.valid(),
    ensures
        s.tick() == (MachineState {
            delay_timer: s.tick().delay_timer,
            sound_timer: s.tick().sound_timer,
            countdown: s.tick().countdown,
            ..s
        }),
        s.tick().delay_timer <= s.delay_timer,
        s.tick().sound_timer <= s.sound_timer,
        s.countdown == 1 ==> s.tick().countdown == 30 && (s.delay_timer > 0 ==> s.tick().delay_timer
            == s.delay_timer - 1) && (s.sound_timer > 0 ==> s.tick().sound_timer == s.sound_timer
            - 1),
        s.countdown > 1 ==> s.tick().countdown == s.countdown - 1 && s.tick().delay_timer
            == s.delay_timer && s.tick().sound_timer == s.sound_timer,
{
}

/// Word alignment is kept by everything but a jump or call to an odd
/// address: if the program counter and all pending return addresses are
/// even, they are so again after a fetch and after any instruction whose
/// target, where it has one, is even.
pub proof fn lemma_alignment_is_kept(s: MachineState, opcode: u16, random: u8)
    requires
        s.valid(),
        s.pc % 2 == 0,
        forall|i: int| 0 <= i < s.stack.len() ==> s.stack[i] % 2 == 0,
        family(opcode) == 0x1 || family(opcode) == 0x2 ==> operand_nnn(opcode) % 2 == 0,
        family(opcode) == 0xB ==> (operand_nnn(opcode) + s.registers[0]) % 2 == 0,
    ensures
        s.fetch() matches Ok((t, _)) ==> t.pc % 2 == 0,
        s.execute(opcode, random) matches Ok((t, _)) ==> t.pc % 2 == 0 && forall|i: int|
            0 <= i < t.stack.len() ==> t.stack[i] % 2 == 0,
{
    let f: u16 = family(opcode);
    let n: u16 = operand_n(opcode);
    let skipped: u16 = s.pc.wrapping_add(2);
    let rewound: u16 = s.pc.wrapping_sub(2);
    assert(skipped % 2 == 0 && rewound % 2 == 0);
    if let Ok((t, _)) = s.execute(opcode, random) {
        if f == 0x0 && n == 0xE {
            assert(t.pc == s.stack[s.stack.len() - 1]);
            assert(t.stack == s.stack.drop_last());
        } else if f == 0x2 {
            assert(t.stack == s.stack.push(s.pc));
            assert(t.pc == operand_nnn(opcode));
        } else {
            assert(t.stack == s.stack);
            assert(t.pc == s.pc || t.pc == skipped || t.pc == rewound || (f == 0x1 && t.pc
                == operand_nnn(opcode)) || (f == 0xB && t.pc == operand_nnn(opcode)
                + s.registers[0]));
        }
    }
}

/// Fetching, ticking, resetting and loading leave a valid state valid.
pub proof fn lemma_housekeeping_preserves_valid(s: MachineState, rom: Seq<u8>)
    requires
        s.valid(),
    ensures
        s.fetch() matches Ok((t, _)) ==> t.valid(),
        s.tick().valid(),
        s.reset().valid(),
        MachineState::blank().valid(),
        s.load(rom) matches Ok(t) ==> t.valid(),
        forall|random: u8| (#[trigger] s.cycle(random)).0.valid(),
{
}

/// A fetch succeeds exactly when both bytes of the word lie inside memory.
/// It then moves the program counter forward by exactly two and changes
/// nothing else, and whatever the instruction does, a jump, a call or a skip
/// included, it does to the state with the program counter so advanced.
pub proof fn lemma_fetch_advances_by_two(s: MachineState, random: u8)
    requires
        s.valid(),
    ensures
        s.fetch() is Ok <==> s.pc + 1 < 4096,
        s.fetch() is Ok ==> ({
            let advanced = MachineState { pc: (s.pc + 2) as u16, ..s };
            &&& advanced.pc == s.pc + 2
            &&& s.fetch() == Ok::<(MachineState, u16), Fault>((advanced, s.word_at_pc()))
            &&& s.cycle(random) == match advanced.execute(s.word_at_pc(), random) {
                Ok((executed, report)) => (executed.tick(), Ok::<Report, Fault>(report)),
                Err(fault) => (advanced, Err::<Report, Fault>(fault)),
            }
        }),
{
}

/// `ADD Vx,Vy`: for all register contents `a` and `b` the result is
/// `(a + b) mod 256`, and VF is 1 if `a + b > 255` and 0 if not. The flag is
/// written before the result, so VF shows it only when X is not `0xF`.
pub proof fn lemma_add_sets_carry(s: MachineState, opcode: u16, random: u8)
    requires
        s.valid(),
        family(opcode) == 0x8,
        operand_n(opcode) == 0x4,
    ensures
        s.execute(opcode, random) is Ok,
        ({
            let t = s.execute(opcode, random)->Ok_0.0;
            let x: int = operand_x(opcode) as int;
            let a: u8 = s.registers[x];
            let b: u8 = s.registers[operand_y(opcode) as int];
            &&& t.registers[x] == (a + b) % 256
            &&& x != 0xF ==> (a + b > 255 ==> t.registers[0xF] == 1)
            &&& x != 0xF ==> (a + b <= 255 ==> t.registers[0xF] == 0)
            &&& forall|i: int| 0 <= i < 16 && i != x && i != 0xF ==> t.registers[i] == s.registers[i]
        }),
{
}

/// `SUB Vx,Vy`: for all register contents `a` and `b` the result is
/// `(a - b) mod 256`, and VF is 1 if `a >= b` and 0 if not. The flag is
/// written before the result, so VF shows it only when X is not `0xF`.
pub proof fn lemma_sub_sets_no_borrow(s: MachineState, opcode: u16, random: u8)
    requires
        s.valid(),
        family(opcode) == 0x8,
        operand_n(opcode) == 0x5,
    ensures
        s.execute(opcode, random) is Ok,
        ({
            let t = s.execute(opcode, random)->Ok_0.0;
            let x: int = operand_x(opcode) as int;
            let a: u8 = s.registers[x];
            let b: u8 = s.registers[operand_y(opcode) as int];
            &&& t.registers[x] == (a - b) % 256
            &&& x != 0xF ==> (a >= b ==> t.registers[0xF] == 1)
            &&& x != 0xF ==> (a < b ==> t.registers[0xF] == 0)
            &&& forall|i: int| 0 <= i < 16 && i != x && i != 0xF ==> t.registers[i] == s.registers[i]
        }),
{
}

/// `CLS` turns all 2048 pixels off and sets the dirty flag, whatever the
/// rest of the word's family-0 operand bits are, and changes nothing else.
pub proof fn lemma_cls_blanks_the_display(s: MachineState, opcode: u16, random: u8)
    requires
        s.valid(),
        family(opcode) == 0x0,
        operand_n(opcode) == 0x0,
    ensures
        s.execute(opcode, random) is Ok,
        ({
            let t = s.execute(opcode, random)->Ok_0.0;
            &&& t.dirty
            &&& forall|r: int, c: int| 0 <= r < 32 && 0 <= c < 64 ==> !t.screen[r][c]
            &&& t == (MachineState { screen: t.screen, dirty: true, ..s })
        }),
{
}

/// A `CALL` that is followed at once by a `RET` is undone by it: the
/// machine is back in the state in which the `CALL` was dispatched. Its
/// program counter, which then named the instruction after the `CALL`, does
/// so again, and the stack is as deep as before.
pub proof fn lemma_call_then_ret(s: MachineState, addr: u16)
    requires
        s.valid(),
        s.stack.len() < 16,
    ensures
        s.call(addr) is Ok,
        s.call(addr)->Ok_0.pc == addr,
        s.call(addr)->Ok_0.stack.len() == s.stack.len() + 1,
        s.call(addr)->Ok_0.ret() == Ok::<MachineState, Fault>(s),
{
    let t = s.call(addr)->Ok_0;
    assert(t.ret()->Ok_0 =~~= s);
}

/// The same over two whole cycles: when the word at the program counter is
/// a `CALL` and the word at its target is a `RET`, two cycles leave the
/// program counter two past the `CALL` and the stack as it was.
pub proof fn lemma_call_cycle_then_ret_cycle(s: MachineState, random: u8, other_random: u8)
    requires
        s.valid(),
        s.stack.len() < 16,
        s.fetch() is Ok,
        family(s.word_at_pc()) == 0x2,
        operand_nnn(s.word_at_pc()) + 1 < 4096,
        family(s.word_at(operand_nnn(s.word_at_pc()) as int)) == 0x0,
        operand_n(s.word_at(operand_nnn(s.word_at_pc()) as int)) == 0xE,
    ensures
        ({
            let (called, report) = s.cycle(random);
            let (returned, other_report) = called.cycle(other_random);
            &&& report == Ok::<Report, Fault>(Report::Completed)
            &&& called.pc == operand_nnn(s.word_at_pc())
            &&& called.stack.len() == s.stack.len() + 1
            &&& other_report == Ok::<Report, Fault>(Report::Completed)
            &&& returned.pc == s.pc + 2
            &&& returned.stack == s.stack
        }),
{
    let (fetched, word) = s.fetch()->Ok_0;
    lemma_call_then_ret(fetched, operand_nnn(word));
}

/// Unmatched calls nest sixteen deep and no deeper: a run of calls succeeds
/// exactly when it leaves at most sixteen return addresses pending, each
/// call then adding one; the call that would make it seventeen is a stack
/// overflow fault.
pub proof fn lemma_unmatched_calls(s: MachineState, addrs: Seq<u16>)
    requires
        s.valid(),
    ensures
        call_all(s, addrs) is Ok <==> s.stack.len() + addrs.len() <= 16,
        call_all(s, addrs) matches Ok(t) ==> t.valid() && t.stack.len() == s.stack.len()
            + addrs.len(),
        call_all(s, addrs) matches Err(f) ==> f is StackOverflow,
        s.stack.len() + addrs.len() == 16 ==> forall|addr: u16| #[trigger]
            call_all(s, addrs.push(addr)) is Err,
    decreases addrs.len(),
{
    if addrs.len() > 0 {
        lemma_unmatched_calls(s, addrs.drop_last());
    }
    if s.stack.len() + addrs.len() == 16 {
        assert forall|addr: u16| #[trigger] call_all(s, addrs.push(addr)) is Err by {
            assert(addrs.push(addr).drop_last() =~= addrs);
        }
    }
}

/// `LD Vx,K` while no key is down: a cycle that fetches it changes nothing
/// but the timer ticker. The program counter in particular is where it was,
/// so the next cycle fetches the same word, and the cycle reports that the
/// machine is waiting.
pub proof fn lemma_wait_for_key_repeats(s: MachineState, random: u8)
    requires
        s.valid(),
        s.fetch() is Ok,
        family(s.word_at_pc()) == 0xF,
        operand_nn(s.word_at_pc()) == 0x0A,
        !s.any_key_down(),
    ensures
        s.cycle(random) == (
            s.tick(),
            Ok::<Report, Fault>(
                Report::AwaitingKey { register: operand_x(s.word_at_pc()) as u8 },
            ),
        ),
        s.cycle(random).0.pc == s.pc,
{
}

/// `LD Vx,K` in the first cycle in which a key is down, `key` being the
/// highest such: the cycle stores `key` in Vx and leaves the program counter
/// two past the word, so execution goes on with the next instruction.
pub proof fn lemma_wait_for_key_proceeds(s: MachineState, random: u8, key: int)
    requires
        s.valid(),
        s.fetch() is Ok,
        family(s.word_at_pc()) == 0xF,
        operand_nn(s.word_at_pc()) == 0x0A,
        s.is_highest_key_down(key),
    ensures
        s.cycle(random) == (
            (MachineState {
                pc: (s.pc + 2) as u16,
                registers: s.registers.update(operand_x(s.word_at_pc()) as int, key as u8),
                ..s
            }).tick(),
            Ok::<Report, Fault>(Report::Completed),
        ),
{
    let (fetched, word) = s.fetch()->Ok_0;
    lemma_highest_key_is_unique(fetched, key);
    assert(fetched.wait_for_key(operand_x(word) as int) =~~= (MachineState {
        pc: (s.pc + 2) as u16,
        registers: s.registers.update(operand_x(word) as int, key as u8),
        ..s
    }));
}

} // verus!
