use chip8::{Chip8Hardware, Fault, Report};

fn machine_with(program: &[u8]) -> Chip8Hardware {
    let mut machine = Chip8Hardware::new();
    machine.cpu_reset();
    assert_eq!(machine.load_game(program), Ok(()));
    machine
}

#[test]
fn keys_are_latched_and_released() {
    let mut machine = machine_with(&[]);
    assert_eq!(machine.pressed_key(), None);
    machine.set_key(3, true);
    assert!(machine.is_key_pressed(3));
    assert!(!machine.is_key_pressed(4));
    assert_eq!(machine.pressed_key(), Some(3));
    machine.set_key(0xC, true);
    assert_eq!(machine.pressed_key(), Some(0xC));
    machine.set_key(0xC, false);
    assert_eq!(machine.pressed_key(), Some(3));
    machine.set_key(3, false);
    assert_eq!(machine.pressed_key(), None);
}

#[test]
fn skp_skips_when_the_key_is_down() {
    let mut machine = machine_with(&[]);
    machine.set_register_value(2, 0xA);
    assert_eq!(machine.opcode_EX9E(0xE29E), Ok(()));
    assert_eq!(machine.program_counter(), 0x200);
    machine.set_key(0xA, true);
    assert_eq!(machine.opcode_EX9E(0xE29E), Ok(()));
    assert_eq!(machine.program_counter(), 0x202);
}

#[test]
fn sknp_skips_when_the_key_is_up() {
    let mut machine = machine_with(&[]);
    machine.set_register_value(2, 0xA);
    assert_eq!(machine.opcode_EXA1(0xE2A1), Ok(()));
    assert_eq!(machine.program_counter(), 0x202);
    machine.set_key(0xA, true);
    assert_eq!(machine.opcode_EXA1(0xE2A1), Ok(()));
    assert_eq!(machine.program_counter(), 0x202);
}

#[test]
fn a_key_number_above_fifteen_is_a_fault() {
    let mut machine = machine_with(&[]);
    machine.opcode_1NNN(0x1300);
    machine.set_register_value(2, 16);
    assert_eq!(machine.opcode_EX9E(0xE29E), Err(Fault::KeyOutOfRange { key: 16, pc: 0x2FE }));
    assert_eq!(machine.opcode_EXA1(0xE2A1), Err(Fault::KeyOutOfRange { key: 16, pc: 0x2FE }));
    assert_eq!(machine.program_counter(), 0x300);
    assert_eq!(
        machine.decode_and_execute_opcode(0xE29E),
        Err(Fault::KeyOutOfRange { key: 16, pc: 0x2FE })
    );
    machine.set_register_value(2, 15);
    assert_eq!(machine.decode_and_execute_opcode(0xE2A1), Ok(Report::Completed));
    assert_eq!(machine.program_counter(), 0x302);
}

#[test]
fn wait_for_key_repeats_until_a_key_is_down() {
    let mut machine = machine_with(&[0xF5, 0x0A, 0x61, 0x07]);
    let mut opcode: u16 = 0;
    for _ in 0..5 {
        assert_eq!(machine.program_counter(), 0x200);
        assert_eq!(machine.fetch_opcode(&mut opcode), Ok(()));
        assert_eq!(opcode, 0xF50A);
        assert_eq!(machine.program_counter(), 0x202);
        assert_eq!(
            machine.decode_and_execute_opcode(opcode),
            Ok(Report::AwaitingKey { register: 5 })
        );
        assert_eq!(machine.program_counter(), 0x200);
        assert_eq!(machine.get_register_value(5), 0);
        machine.decrement_timer_counter();
    }
    machine.set_key(0xB, true);
    assert_eq!(machine.fetch_opcode(&mut opcode), Ok(()));
    assert_eq!(opcode, 0xF50A);
    assert_eq!(machine.decode_and_execute_opcode(opcode), Ok(Report::Completed));
    assert_eq!(machine.program_counter(), 0x202);
    assert_eq!(machine.get_register_value(5), 0xB);
    assert_eq!(machine.fetch_opcode(&mut opcode), Ok(()));
    assert_eq!(opcode, 0x6107);
}

#[test]
fn wait_for_key_takes_the_highest_key_that_is_down() {
    let mut machine = machine_with(&[]);
    machine.set_key(0, true);
    machine.set_key(7, true);
    machine.set_key(2, true);
    machine.opcode_FX0A(0xF30A);
    assert_eq!(machine.get_register_value(3), 7);
    assert_eq!(machine.program_counter(), 0x200);
}

#[test]
fn wait_for_key_with_key_zero_down() {
    let mut machine = machine_with(&[]);
    machine.set_register_value(3, 9);
    machine.set_key(0, true);
    machine.opcode_FX0A(0xF30A);
    assert_eq!(machine.get_register_value(3), 0);
    assert_eq!(machine.program_counter(), 0x200);
}

#[test]
fn wait_for_key_moves_the_program_counter_back() {
    let mut machine = machine_with(&[]);
    machine.opcode_1NNN(0x1302);
    machine.opcode_FX0A(0xF30A);
    assert_eq!(machine.program_counter(), 0x300);
}

#[test]
fn waiting_cycles_change_nothing_but_the_ticker() {
    let mut machine = machine_with(&[0xF5, 0x0A, 0x61, 0x07]);
    machine.set_register_value(5, 0x33);
    machine.opcode_FX15(0xF515);
    for _ in 0..29 {
        assert_eq!(machine.cycle(), Ok(Report::AwaitingKey { register: 5 }));
        assert_eq!(machine.program_counter(), 0x200);
        assert_eq!(machine.delay_timer(), 0x33);
    }
    assert_eq!(machine.cycle(), Ok(Report::AwaitingKey { register: 5 }));
    assert_eq!(machine.program_counter(), 0x200);
    assert_eq!(machine.delay_timer(), 0x32);
    assert_eq!(machine.get_register_value(5), 0x33);
    machine.set_key(4, true);
    assert_eq!(machine.cycle(), Ok(Report::Completed));
    assert_eq!(machine.program_counter(), 0x202);
    assert_eq!(machine.get_register_value(5), 4);
    assert_eq!(machine.cycle(), Ok(Report::Completed));
    assert_eq!(machine.get_register_value(1), 7);
}

#[test]
fn wait_for_key_at_address_zero_wraps_the_program_counter() {
    let mut machine = machine_with(&[]);
    machine.opcode_1NNN(0x1000);
    machine.opcode_FX0A(0xF30A);
    assert_eq!(machine.program_counter(), 0xFFFE);
}
