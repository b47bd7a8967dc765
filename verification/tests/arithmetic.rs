use chip8::{Chip8Hardware, Report};

fn machine_with_registers(values: &[(u16, u16)]) -> Chip8Hardware {
    let mut machine = Chip8Hardware::new();
    machine.cpu_reset();
    for &(index, value) in values {
        machine.set_register_value(index, value);
    }
    machine
}

#[test]
fn ld_byte_sets_the_register() {
    let mut machine = machine_with_registers(&[]);
    machine.opcode_6XNN(0x6A42);
    assert_eq!(machine.get_register_value(0xA), 0x42);
    assert_eq!(machine.get_register_value(0xF), 0);
}

#[test]
fn add_byte_wraps_and_leaves_the_flag() {
    let mut machine = machine_with_registers(&[(2, 0xF0), (0xF, 0x55)]);
    machine.opcode_7XNN(0x7220);
    assert_eq!(machine.get_register_value(2), 0x10);
    assert_eq!(machine.get_register_value(0xF), 0x55);
}

#[test]
fn ld_reg_copies() {
    let mut machine = machine_with_registers(&[(1, 0x11), (2, 0x22)]);
    machine.opcode_8XY0(0x8120);
    assert_eq!(machine.get_register_value(1), 0x22);
    assert_eq!(machine.get_register_value(2), 0x22);
}

#[test]
fn or_and_xor() {
    let mut machine = machine_with_registers(&[(1, 0b1100), (2, 0b1010), (0xF, 7)]);
    machine.opcode_8XY1(0x8121);
    assert_eq!(machine.get_register_value(1), 0b1110);
    machine.set_register_value(1, 0b1100);
    machine.opcode_8XY2(0x8122);
    assert_eq!(machine.get_register_value(1), 0b1000);
    machine.set_register_value(1, 0b1100);
    machine.opcode_8XY3(0x8123);
    assert_eq!(machine.get_register_value(1), 0b0110);
    assert_eq!(machine.get_register_value(2), 0b1010);
    assert_eq!(machine.get_register_value(0xF), 7);
}

#[test]
fn add_reg_for_all_byte_pairs() {
    let mut machine = machine_with_registers(&[]);
    for a in 0..256u16 {
        for b in 0..256u16 {
            machine.set_register_value(3, a);
            machine.set_register_value(4, b);
            machine.set_register_value(0xF, 0x99);
            machine.opcode_8XY4(0x8344);
            assert_eq!(machine.get_register_value(3), (a + b) % 256);
            assert_eq!(machine.get_register_value(4), b);
            assert_eq!(machine.get_register_value(0xF), if a + b > 255 { 1 } else { 0 });
        }
    }
}

#[test]
fn sub_reg_for_all_byte_pairs() {
    let mut machine = machine_with_registers(&[]);
    for a in 0..256u16 {
        for b in 0..256u16 {
            machine.set_register_value(3, a);
            machine.set_register_value(4, b);
            machine.set_register_value(0xF, 0x99);
            machine.opcode_8XY5(0x8345);
            assert_eq!(machine.get_register_value(3), (256 + a - b) % 256);
            assert_eq!(machine.get_register_value(4), b);
            assert_eq!(machine.get_register_value(0xF), if a >= b { 1 } else { 0 });
        }
    }
}

#[test]
fn subn_reg_for_all_byte_pairs() {
    let mut machine = machine_with_registers(&[]);
    for a in 0..256u16 {
        for b in 0..256u16 {
            machine.set_register_value(3, a);
            machine.set_register_value(4, b);
            machine.opcode_8XY7(0x8347);
            assert_eq!(machine.get_register_value(3), (256 + b - a) % 256);
            assert_eq!(machine.get_register_value(0xF), if b >= a { 1 } else { 0 });
        }
    }
}

#[test]
fn add_reg_of_a_register_to_itself() {
    let mut machine = machine_with_registers(&[(5, 0x90)]);
    machine.opcode_8XY4(0x8554);
    assert_eq!(machine.get_register_value(5), 0x20);
    assert_eq!(machine.get_register_value(0xF), 1);
}

#[test]
fn add_reg_into_the_flag_register_keeps_the_sum() {
    let mut machine = machine_with_registers(&[(0xF, 0xFF), (1, 0x01)]);
    machine.opcode_8XY4(0x8F14);
    assert_eq!(machine.get_register_value(0xF), 0x00);
    let mut machine = machine_with_registers(&[(0xF, 0x03), (1, 0x04)]);
    machine.opcode_8XY4(0x8F14);
    assert_eq!(machine.get_register_value(0xF), 0x07);
}

#[test]
fn sub_reg_into_the_flag_register_keeps_the_difference() {
    let mut machine = machine_with_registers(&[(0xF, 0x09), (1, 0x04)]);
    machine.opcode_8XY5(0x8F15);
    assert_eq!(machine.get_register_value(0xF), 0x05);
}

#[test]
fn shr_halves_and_flags_the_low_bit() {
    let mut machine = machine_with_registers(&[(6, 0b1011_0101), (7, 0xEE)]);
    machine.opcode_8XY6(0x8676);
    assert_eq!(machine.get_register_value(6), 0b0101_1010);
    assert_eq!(machine.get_register_value(0xF), 1);
    assert_eq!(machine.get_register_value(7), 0xEE);
    machine.opcode_8XY6(0x8676);
    assert_eq!(machine.get_register_value(6), 0b0010_1101);
    assert_eq!(machine.get_register_value(0xF), 0);
}

#[test]
fn shl_doubles_and_flags_the_high_bit() {
    let mut machine = machine_with_registers(&[(6, 0b1011_0101), (7, 0xEE)]);
    machine.opcode_8XYE(0x867E);
    assert_eq!(machine.get_register_value(6), 0b0110_1010);
    assert_eq!(machine.get_register_value(0xF), 1);
    assert_eq!(machine.get_register_value(7), 0xEE);
    machine.opcode_8XYE(0x867E);
    assert_eq!(machine.get_register_value(6), 0b1101_0100);
    assert_eq!(machine.get_register_value(0xF), 0);
}

#[test]
fn shifts_of_every_byte() {
    let mut machine = machine_with_registers(&[]);
    for a in 0..256u16 {
        machine.set_register_value(2, a);
        machine.opcode_8XY6(0x8206);
        assert_eq!(machine.get_register_value(2), a / 2);
        assert_eq!(machine.get_register_value(0xF), a % 2);
        machine.set_register_value(2, a);
        machine.opcode_8XYE(0x820E);
        assert_eq!(machine.get_register_value(2), (a * 2) % 256);
        assert_eq!(machine.get_register_value(0xF), a / 128);
    }
}

#[test]
fn arithmetic_through_the_dispatcher() {
    let mut machine = machine_with_registers(&[(0, 0xFF), (1, 0x01)]);
    assert_eq!(machine.decode_and_execute_opcode(0x8014), Ok(Report::Completed));
    assert_eq!(machine.get_register_value(0), 0x00);
    assert_eq!(machine.get_register_value(0xF), 1);
    assert_eq!(machine.decode_and_execute_opcode(0x8015), Ok(Report::Completed));
    assert_eq!(machine.get_register_value(0), 0xFF);
    assert_eq!(machine.get_register_value(0xF), 0);
    assert_eq!(machine.decode_and_execute_opcode(0x8010), Ok(Report::Completed));
    assert_eq!(machine.get_register_value(0), 0x01);
    assert_eq!(machine.decode_and_execute_opcode(0x6233), Ok(Report::Completed));
    assert_eq!(machine.decode_and_execute_opcode(0x7211), Ok(Report::Completed));
    assert_eq!(machine.get_register_value(2), 0x44);
    assert_eq!(machine.decode_and_execute_opcode(0x8021), Ok(Report::Completed));
    assert_eq!(machine.get_register_value(0), 0x45);
    assert_eq!(machine.decode_and_execute_opcode(0x8022), Ok(Report::Completed));
    assert_eq!(machine.get_register_value(0), 0x44);
    assert_eq!(machine.decode_and_execute_opcode(0x8023), Ok(Report::Completed));
    assert_eq!(machine.get_register_value(0), 0x00);
    assert_eq!(machine.decode_and_execute_opcode(0x8027), Ok(Report::Completed));
    assert_eq!(machine.get_register_value(0), 0x44);
    assert_eq!(machine.get_register_value(0xF), 1);
    assert_eq!(machine.decode_and_execute_opcode(0x8006), Ok(Report::Completed));
    assert_eq!(machine.get_register_value(0), 0x22);
    assert_eq!(machine.decode_and_execute_opcode(0x800E), Ok(Report::Completed));
    assert_eq!(machine.get_register_value(0), 0x44);
}
