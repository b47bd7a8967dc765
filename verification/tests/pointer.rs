use chip8::{Chip8Hardware, Fault, Report};

fn fresh() -> Chip8Hardware {
    let mut machine = Chip8Hardware::new();
    machine.cpu_reset();
    machine
}

#[test]
fn ld_index_sets_the_address_register() {
    let mut machine = fresh();
    machine.opcode_ANNN(0xA123);
    assert_eq!(machine.address_register(), 0x123);
}

#[test]
fn add_index_adds_the_register_value() {
    let mut machine = fresh();
    machine.opcode_ANNN(0xA100);
    machine.set_register_value(7, 0x23);
    machine.set_register_value(0xF, 5);
    machine.opcode_FX1E(0xF71E);
    assert_eq!(machine.address_register(), 0x123);
    assert_eq!(machine.get_register_value(0xF), 0);
    assert_eq!(machine.get_register_value(7), 0x23);
}

#[test]
fn add_index_flags_leaving_the_address_range() {
    let mut machine = fresh();
    machine.opcode_ANNN(0xAFFF);
    machine.set_register_value(7, 0x00);
    machine.opcode_FX1E(0xF71E);
    assert_eq!(machine.address_register(), 0xFFF);
    assert_eq!(machine.get_register_value(0xF), 0);
    machine.set_register_value(7, 0x01);
    machine.opcode_FX1E(0xF71E);
    assert_eq!(machine.address_register(), 0x1000);
    assert_eq!(machine.get_register_value(0xF), 1);
}

#[test]
fn add_index_wraps_at_sixteen_bits() {
    let mut machine = fresh();
    machine.set_register_value(7, 0xFF);
    for _ in 0..257 {
        machine.opcode_FX1E(0xF71E);
    }
    assert_eq!(machine.address_register(), ((257u32 * 255) % 65536) as u16);
    machine.opcode_FX1E(0xF71E);
    assert_eq!(machine.address_register(), ((258u32 * 255) % 65536) as u16);
    assert_eq!(machine.get_register_value(0xF), 1);
}

#[test]
fn ld_glyph_points_at_five_times_the_value() {
    let mut machine = fresh();
    for digit in 0..16u16 {
        machine.set_register_value(2, digit);
        machine.opcode_FX29(0xF229);
        assert_eq!(machine.address_register(), digit * 5);
    }
    machine.set_register_value(2, 0xFF);
    machine.opcode_FX29(0xF229);
    assert_eq!(machine.address_register(), 1275);
}

#[test]
fn bcd_of_254() {
    let mut machine = fresh();
    machine.opcode_ANNN(0xA300);
    machine.set_register_value(4, 254);
    assert_eq!(machine.opcode_FX33(0xF433), Ok(()));
    assert_eq!(machine.read_memory(0x300), 2);
    assert_eq!(machine.read_memory(0x301), 5);
    assert_eq!(machine.read_memory(0x302), 4);
    assert_eq!(machine.read_memory(0x303), 0);
    assert_eq!(machine.address_register(), 0x300);
}

#[test]
fn bcd_of_every_byte() {
    let mut machine = fresh();
    machine.opcode_ANNN(0xA300);
    for value in 0..256u16 {
        machine.set_register_value(4, value);
        assert_eq!(machine.opcode_FX33(0xF433), Ok(()));
        assert_eq!(machine.read_memory(0x300) as u16, value / 100);
        assert_eq!(machine.read_memory(0x301) as u16, (value / 10) % 10);
        assert_eq!(machine.read_memory(0x302) as u16, value % 10);
    }
}

#[test]
fn bcd_at_the_end_of_memory() {
    let mut machine = fresh();
    machine.set_register_value(4, 123);
    machine.opcode_ANNN(0xAFFD);
    assert_eq!(machine.opcode_FX33(0xF433), Ok(()));
    assert_eq!(machine.read_memory(0xFFD), 1);
    assert_eq!(machine.read_memory(0xFFE), 2);
    assert_eq!(machine.read_memory(0xFFF), 3);
    machine.opcode_ANNN(0xAFFE);
    machine.set_register_value(4, 45);
    assert_eq!(
        machine.opcode_FX33(0xF433),
        Err(Fault::MemoryOutOfBounds { address: 0xFFE, pc: 0x1FE })
    );
    assert_eq!(machine.read_memory(0xFFE), 2);
    assert_eq!(machine.read_memory(0xFFF), 3);
}

#[test]
fn store_registers_copies_v0_to_vx() {
    let mut machine = fresh();
    for index in 0..16u16 {
        machine.set_register_value(index, 0x10 + index);
    }
    machine.opcode_ANNN(0xA400);
    assert_eq!(machine.opcode_FX55(0xF355), Ok(()));
    assert_eq!(machine.read_memory(0x3FF), 0);
    assert_eq!(machine.read_memory(0x400), 0x10);
    assert_eq!(machine.read_memory(0x401), 0x11);
    assert_eq!(machine.read_memory(0x402), 0x12);
    assert_eq!(machine.read_memory(0x403), 0x13);
    assert_eq!(machine.read_memory(0x404), 0);
    assert_eq!(machine.address_register(), 0x400);
    assert_eq!(machine.opcode_FX55(0xF055), Ok(()));
    assert_eq!(machine.opcode_FX55(0xFF55), Ok(()));
    assert_eq!(machine.read_memory(0x40F), 0x1F);
    assert_eq!(machine.read_memory(0x410), 0);
}

#[test]
fn load_registers_fills_v0_to_vx() {
    let mut machine = fresh();
    assert_eq!(machine.load_game(&[1, 2, 3, 4, 5]), Ok(()));
    machine.opcode_ANNN(0xA200);
    machine.set_register_value(3, 0x77);
    assert_eq!(machine.opcode_FX65(0xF265), Ok(()));
    assert_eq!(machine.get_register_value(0), 1);
    assert_eq!(machine.get_register_value(1), 2);
    assert_eq!(machine.get_register_value(2), 3);
    assert_eq!(machine.get_register_value(3), 0x77);
    assert_eq!(machine.address_register(), 0x200);
}

#[test]
fn store_and_load_round_trip() {
    let mut machine = fresh();
    for index in 0..16u16 {
        machine.set_register_value(index, 0xA0 + index);
    }
    machine.opcode_ANNN(0xA500);
    assert_eq!(machine.decode_and_execute_opcode(0xFF55), Ok(Report::Completed));
    for index in 0..16u16 {
        machine.set_register_value(index, 0);
    }
    assert_eq!(machine.decode_and_execute_opcode(0xFF65), Ok(Report::Completed));
    for index in 0..16u16 {
        assert_eq!(machine.get_register_value(index), 0xA0 + index);
    }
}

#[test]
fn register_transfers_past_the_end_of_memory_are_faults() {
    let mut machine = fresh();
    machine.set_register_value(0, 0x11);
    machine.set_register_value(1, 0x22);
    machine.opcode_ANNN(0xAFFF);
    assert_eq!(machine.opcode_FX55(0xF055), Ok(()));
    assert_eq!(machine.read_memory(0xFFF), 0x11);
    assert_eq!(
        machine.opcode_FX55(0xF155),
        Err(Fault::MemoryOutOfBounds { address: 0xFFF, pc: 0x1FE })
    );
    assert_eq!(machine.opcode_FX65(0xF265), Err(Fault::MemoryOutOfBounds { address: 0xFFF, pc: 0x1FE }));
    assert_eq!(machine.get_register_value(0), 0x11);
    assert_eq!(machine.get_register_value(1), 0x22);
    assert_eq!(machine.opcode_FX65(0xF065), Ok(()));
    assert_eq!(
        machine.decode_and_execute_opcode(0xF133),
        Err(Fault::MemoryOutOfBounds { address: 0xFFF, pc: 0x1FE })
    );
}
