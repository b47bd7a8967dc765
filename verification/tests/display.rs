use chip8::{Chip8Hardware, Fault, Report};

fn machine_with(program: &[u8]) -> Chip8Hardware {
    let mut machine = Chip8Hardware::new();
    machine.cpu_reset();
    assert_eq!(machine.load_game(program), Ok(()));
    machine
}

fn lit_pixels(machine: &Chip8Hardware) -> Vec<(u16, u16)> {
    let mut lit = Vec::new();
    for row in 0..32u16 {
        for col in 0..64u16 {
            if machine.get_pixel_value_x_y(row, col) {
                lit.push((row, col));
            }
        }
    }
    lit
}

#[test]
fn draw_wraps_round_both_edges() {
    let mut machine = machine_with(&[0xFF, 0xFF]);
    machine.opcode_ANNN(0xA200);
    machine.set_register_value(0, 60);
    machine.set_register_value(1, 30);
    machine.set_register_value(0xF, 0x55);
    assert_eq!(machine.opcode_DXYN(0xD012), Ok(()));
    let mut expected = Vec::new();
    for row in [30u16, 31] {
        for col in [0u16, 1, 2, 3, 60, 61, 62, 63] {
            expected.push((row, col));
        }
    }
    assert_eq!(lit_pixels(&machine), expected);
    assert_eq!(machine.get_register_value(0xF), 0);
    assert!(machine.get_draw_enabled());
    assert_eq!(machine.get_register_value(0), 60);
    assert_eq!(machine.get_register_value(1), 30);
    assert_eq!(machine.address_register(), 0x200);
}

#[test]
fn drawing_the_same_sprite_twice_erases_it_and_collides() {
    let mut machine = machine_with(&[0xFF, 0xFF]);
    machine.opcode_ANNN(0xA200);
    machine.set_register_value(0, 60);
    machine.set_register_value(1, 30);
    assert_eq!(machine.opcode_DXYN(0xD012), Ok(()));
    assert_eq!(machine.get_register_value(0xF), 0);
    assert_eq!(machine.opcode_DXYN(0xD012), Ok(()));
    assert_eq!(machine.get_register_value(0xF), 1);
    assert_eq!(lit_pixels(&machine), Vec::new());
}

#[test]
fn draw_collides_when_one_pixel_was_already_on() {
    let mut machine = machine_with(&[0x80, 0xFF, 0xFF]);
    machine.opcode_ANNN(0xA200);
    machine.set_register_value(0, 63);
    machine.set_register_value(1, 31);
    assert_eq!(machine.opcode_DXYN(0xD011), Ok(()));
    assert_eq!(lit_pixels(&machine), vec![(31, 63)]);
    assert_eq!(machine.get_register_value(0xF), 0);
    machine.opcode_ANNN(0xA201);
    machine.set_register_value(0, 60);
    machine.set_register_value(1, 30);
    assert_eq!(machine.opcode_DXYN(0xD012), Ok(()));
    assert_eq!(machine.get_register_value(0xF), 1);
    assert!(!machine.get_pixel_value_x_y(31, 63));
    assert!(machine.get_pixel_value_x_y(30, 63));
    assert!(machine.get_pixel_value_x_y(31, 62));
    assert_eq!(lit_pixels(&machine).len(), 15);
}

#[test]
fn draw_uses_the_bits_from_the_left() {
    let mut machine = machine_with(&[0b1010_0001, 0b0100_0000]);
    machine.opcode_ANNN(0xA200);
    machine.set_register_value(2, 8);
    machine.set_register_value(3, 4);
    assert_eq!(machine.opcode_DXYN(0xD232), Ok(()));
    assert_eq!(lit_pixels(&machine), vec![(4, 8), (4, 10), (4, 15), (5, 9)]);
}

#[test]
fn draw_takes_coordinates_modulo_the_display_size() {
    let mut machine = machine_with(&[0xC0]);
    machine.opcode_ANNN(0xA200);
    machine.set_register_value(2, 64 + 64 + 5);
    machine.set_register_value(3, 32 * 7 + 3);
    assert_eq!(machine.opcode_DXYN(0xD231), Ok(()));
    assert_eq!(lit_pixels(&machine), vec![(3, 5), (3, 6)]);
}

#[test]
fn draw_of_a_glyph_from_the_font() {
    let mut machine = machine_with(&[]);
    machine.set_register_value(4, 0x1);
    machine.opcode_FX29(0xF429);
    assert_eq!(machine.address_register(), 5);
    machine.set_register_value(0, 0);
    assert_eq!(machine.opcode_DXYN(0xD005), Ok(()));
    assert_eq!(
        lit_pixels(&machine),
        vec![(0, 2), (1, 1), (1, 2), (2, 2), (3, 2), (4, 1), (4, 2), (4, 3)]
    );
}

#[test]
fn draw_with_height_zero_only_marks_dirty_and_clears_the_flag() {
    let mut machine = machine_with(&[0xFF]);
    machine.opcode_ANNN(0xA200);
    machine.set_register_value(0xF, 9);
    assert_eq!(machine.opcode_DXYN(0xD010), Ok(()));
    assert_eq!(lit_pixels(&machine), Vec::new());
    assert_eq!(machine.get_register_value(0xF), 0);
    assert!(machine.get_draw_enabled());
}

#[test]
fn draw_with_the_flag_register_as_coordinate_reads_it_first() {
    let mut machine = machine_with(&[0x80]);
    machine.opcode_ANNN(0xA200);
    machine.set_register_value(0xF, 7);
    machine.set_register_value(1, 2);
    assert_eq!(machine.opcode_DXYN(0xDF11), Ok(()));
    assert_eq!(lit_pixels(&machine), vec![(2, 7)]);
    assert_eq!(machine.get_register_value(0xF), 0);
}

#[test]
fn draw_past_the_end_of_memory_is_a_fault() {
    let mut machine = machine_with(&[]);
    machine.opcode_ANNN(0xAFFF);
    machine.opcode_1NNN(0x1204);
    assert_eq!(machine.opcode_DXYN(0xD011), Ok(()));
    machine.disable_draw_enabled();
    assert_eq!(
        machine.opcode_DXYN(0xD012),
        Err(Fault::MemoryOutOfBounds { address: 0xFFF, pc: 0x202 })
    );
    assert!(!machine.get_draw_enabled());
    assert_eq!(
        machine.decode_and_execute_opcode(0xD012),
        Err(Fault::MemoryOutOfBounds { address: 0xFFF, pc: 0x202 })
    );
}

#[test]
fn cls_turns_every_pixel_off_and_marks_dirty() {
    let mut machine = machine_with(&[0xFF, 0xFF, 0xFF]);
    machine.opcode_ANNN(0xA200);
    assert_eq!(machine.opcode_DXYN(0xD003), Ok(()));
    assert_eq!(lit_pixels(&machine).len(), 24);
    machine.disable_draw_enabled();
    assert!(!machine.get_draw_enabled());
    machine.opcode_00E0();
    assert_eq!(lit_pixels(&machine), Vec::new());
    assert!(machine.get_draw_enabled());
}

#[test]
fn cls_through_the_dispatcher() {
    let mut machine = machine_with(&[0xFF]);
    machine.opcode_ANNN(0xA200);
    assert_eq!(machine.decode_and_execute_opcode(0xD001), Ok(Report::Completed));
    assert_eq!(lit_pixels(&machine).len(), 8);
    machine.disable_draw_enabled();
    assert_eq!(machine.decode_and_execute_opcode(0x00E0), Ok(Report::Completed));
    assert_eq!(lit_pixels(&machine), Vec::new());
    assert!(machine.get_draw_enabled());
}

#[test]
fn the_dirty_flag_is_cleared_by_the_renderer_only() {
    let mut machine = machine_with(&[]);
    machine.opcode_00E0();
    machine.opcode_6XNN(0x6001);
    machine.decrement_timer_counter();
    assert!(machine.get_draw_enabled());
    machine.disable_draw_enabled();
    assert!(!machine.get_draw_enabled());
}
