use chip8::{decode, Actions, Chip8, ExecError, KeyboardState, Mode};

fn machine(mode: Mode) -> Chip8 {
    let mut m = Chip8::new(mode);
    m.program_counter = 0x202;
    m
}

fn run(m: &mut Chip8, opcode: u16) -> Result<Actions, ExecError> {
    m.execute_with_random(&decode(opcode), &KeyboardState::new(), 0)
}

fn cycle(m: &mut Chip8, keys: &KeyboardState) -> Result<Actions, ExecError> {
    let opcode = m.fetch();
    m.execute_with_random(&decode(opcode), keys, 0)
}

#[test]
fn clear_screen_redraws() {
    let mut m = machine(Mode::Chip8);
    m.display[3][4] = 1;
    assert_eq!(run(&mut m, 0x00E0), Ok(Actions::Redraw));
    assert!(m.display.iter().all(|row| row.iter().all(|&p| p == 0)));
}

#[test]
fn counter_advances_by_two() {
    let mut m = Chip8::new(Mode::Chip8);
    m.load(&[0x60, 0x07, 0x71, 0x01, 0xA3, 0x00, 0xC0, 0x00, 0x81, 0x20]);
    for expected in [0x202, 0x204, 0x206, 0x208, 0x20A] {
        assert_eq!(cycle(&mut m, &KeyboardState::new()), Ok(Actions::NoChange));
        assert_eq!(m.program_counter, expected);
    }
    assert_eq!(m.registers[0], 0);
    assert_eq!(m.index_register, 0x300);
}

#[test]
fn skips_move_counter_by_four() {
    let mut m = Chip8::new(Mode::Chip8);
    m.load(&[0x30, 0x00, 0x00, 0x00, 0x40, 0x00, 0x50, 0x10, 0x00, 0x00, 0x90, 0x10]);
    cycle(&mut m, &KeyboardState::new()).unwrap();
    assert_eq!(m.program_counter, 0x204);
    cycle(&mut m, &KeyboardState::new()).unwrap();
    assert_eq!(m.program_counter, 0x206);
    cycle(&mut m, &KeyboardState::new()).unwrap();
    assert_eq!(m.program_counter, 0x20A);
    cycle(&mut m, &KeyboardState::new()).unwrap();
    assert_eq!(m.program_counter, 0x20C);
}

#[test]
fn jump_sets_counter() {
    let mut m = machine(Mode::Chip8);
    run(&mut m, 0x1ABC).unwrap();
    assert_eq!(m.program_counter, 0xABC);
}

#[test]
fn call_and_return() {
    let mut m = machine(Mode::Chip8);
    run(&mut m, 0x2400).unwrap();
    assert_eq!(m.program_counter, 0x400);
    assert_eq!(m.stack_pointer, 0);
    assert_eq!(m.stack[0], 0x202);
    run(&mut m, 0x00EE).unwrap();
    assert_eq!(m.program_counter, 0x202);
    assert_eq!(m.stack_pointer, -1);
}

#[test]
fn return_on_empty_stack_is_ignored() {
    let mut m = machine(Mode::Chip8);
    assert_eq!(run(&mut m, 0x00EE), Ok(Actions::NoChange));
    assert_eq!(m.program_counter, 0x202);
    assert_eq!(m.stack_pointer, -1);
}

#[test]
fn call_on_full_stack_still_jumps() {
    let mut m = machine(Mode::Chip8);
    for _ in 0..16 {
        run(&mut m, 0x2300).unwrap();
    }
    assert_eq!(m.stack_pointer, 15);
    m.program_counter = 0x500;
    run(&mut m, 0x2600).unwrap();
    assert_eq!(m.stack_pointer, 15);
    assert_eq!(m.stack[15], 0x300);
    assert_eq!(m.program_counter, 0x600);
}

#[test]
fn add_immediate_wraps_without_flag() {
    let mut m = machine(Mode::Chip8);
    m.registers[2] = 0xFF;
    m.registers[0xF] = 7;
    run(&mut m, 0x7202).unwrap();
    assert_eq!(m.registers[2], 0x01);
    assert_eq!(m.registers[0xF], 7);
}

#[test]
fn add_registers_sets_carry() {
    let mut m = machine(Mode::Chip8);
    m.registers[1] = 0xFF;
    m.registers[2] = 0x01;
    run(&mut m, 0x8124).unwrap();
    assert_eq!(m.registers[1], 0x00);
    assert_eq!(m.registers[0xF], 1);
    m.registers[1] = 0x10;
    m.registers[2] = 0x20;
    run(&mut m, 0x8124).unwrap();
    assert_eq!(m.registers[1], 0x30);
    assert_eq!(m.registers[0xF], 0);
}

#[test]
fn subtraction_borrow() {
    let mut m = machine(Mode::Chip8);
    m.registers[1] = 0x10;
    m.registers[2] = 0x20;
    run(&mut m, 0x8125).unwrap();
    assert_eq!(m.registers[1], 0xF0);
    assert_eq!(m.registers[0xF], 0);
    m.registers[1] = 0x20;
    m.registers[2] = 0x10;
    run(&mut m, 0x8125).unwrap();
    assert_eq!(m.registers[1], 0x10);
    assert_eq!(m.registers[0xF], 1);
}

#[test]
fn reverse_subtraction() {
    let mut m = machine(Mode::Chip8);
    m.registers[1] = 0x20;
    m.registers[2] = 0x10;
    run(&mut m, 0x8127).unwrap();
    assert_eq!(m.registers[1], 0xF0);
    assert_eq!(m.registers[0xF], 0);
}

#[test]
fn logic_ops_clear_flag_in_legacy_only() {
    let mut legacy = machine(Mode::Chip8);
    legacy.registers[1] = 0b1100;
    legacy.registers[2] = 0b1010;
    legacy.registers[0xF] = 9;
    run(&mut legacy, 0x8121).unwrap();
    assert_eq!(legacy.registers[1], 0b1110);
    assert_eq!(legacy.registers[0xF], 0);

    let mut modern = machine(Mode::Chip48);
    modern.registers[1] = 0b1100;
    modern.registers[2] = 0b1010;
    modern.registers[0xF] = 9;
    run(&mut modern, 0x8122).unwrap();
    assert_eq!(modern.registers[1], 0b1000);
    assert_eq!(modern.registers[0xF], 9);
    run(&mut modern, 0x8123).unwrap();
    assert_eq!(modern.registers[1], 0b0010);
}

#[test]
fn shift_right_variants() {
    let mut legacy = machine(Mode::Chip8);
    legacy.registers[1] = 0x01;
    legacy.registers[2] = 0x05;
    run(&mut legacy, 0x8126).unwrap();
    assert_eq!(legacy.registers[1], 0x02);
    assert_eq!(legacy.registers[0xF], 1);

    let mut modern = machine(Mode::Chip48);
    modern.registers[1] = 0x01;
    modern.registers[2] = 0x05;
    run(&mut modern, 0x8126).unwrap();
    assert_eq!(modern.registers[1], 0x00);
    assert_eq!(modern.registers[0xF], 1);
}

#[test]
fn shift_left_variants() {
    let mut legacy = machine(Mode::Chip8);
    legacy.registers[1] = 0x01;
    legacy.registers[2] = 0x81;
    run(&mut legacy, 0x812E).unwrap();
    assert_eq!(legacy.registers[1], 0x02);
    assert_eq!(legacy.registers[0xF], 1);

    let mut modern = machine(Mode::Chip48);
    modern.registers[1] = 0x41;
    modern.registers[2] = 0x81;
    run(&mut modern, 0x812E).unwrap();
    assert_eq!(modern.registers[1], 0x82);
    assert_eq!(modern.registers[0xF], 0);
}

#[test]
fn offset_jump_variants() {
    let mut legacy = machine(Mode::Chip8);
    legacy.registers[0] = 0x10;
    legacy.registers[3] = 0x20;
    run(&mut legacy, 0xB300).unwrap();
    assert_eq!(legacy.program_counter, 0x310);

    let mut modern = machine(Mode::Chip48);
    modern.registers[0] = 0x10;
    modern.registers[3] = 0x20;
    run(&mut modern, 0xB300).unwrap();
    assert_eq!(modern.program_counter, 0x320);
}

#[test]
fn random_byte_is_masked() {
    let mut m = machine(Mode::Chip8);
    m.execute_with_random(&decode(0xC30F), &KeyboardState::new(), 0xAB).unwrap();
    assert_eq!(m.registers[3], 0x0B);
    assert_eq!(m.program_counter, 0x202);
}

#[test]
fn random_with_zero_mask_is_zero() {
    let mut m = machine(Mode::Chip8);
    m.registers[3] = 0x55;
    assert_eq!(m.execute(&decode(0xC300), &KeyboardState::new()), Ok(Actions::NoChange));
    assert_eq!(m.registers[3], 0);
    for _ in 0..8 {
        m.execute(&decode(0xC3F0), &KeyboardState::new()).unwrap();
        assert_eq!(m.registers[3] & 0x0F, 0);
    }
}

#[test]
fn sprite_twice_collides() {
    let mut m = machine(Mode::Chip8);
    m.index_register = 0x300;
    m.memory[0x300] = 0xFF;
    m.registers[0] = 5;
    m.registers[1] = 7;
    assert_eq!(run(&mut m, 0xD011), Ok(Actions::Redraw));
    assert!(m.display[7][5..13].iter().all(|&p| p == 1));
    assert_eq!(m.registers[0xF], 0);
    assert_eq!(run(&mut m, 0xD011), Ok(Actions::Redraw));
    assert!(m.display[7][5..13].iter().all(|&p| p == 0));
    assert_eq!(m.registers[0xF], 1);
}

#[test]
fn sprite_clipped_at_bottom() {
    let mut m = machine(Mode::Chip8);
    m.index_register = 0x300;
    for i in 0..4 {
        m.memory[0x300 + i] = 0x80;
    }
    m.registers[0] = 0;
    m.registers[1] = 30;
    run(&mut m, 0xD014).unwrap();
    assert_eq!(m.display[30][0], 1);
    assert_eq!(m.display[31][0], 1);
    assert_eq!(m.display[0][0], 0);
    assert_eq!(m.display[1][0], 0);
    let lit: usize = m.display.iter().map(|row| row.iter().filter(|&&p| p == 1).count()).sum();
    assert_eq!(lit, 2);
}

#[test]
fn sprite_clipped_at_right_and_anchor_wraps() {
    let mut m = machine(Mode::Chip8);
    m.index_register = 0x300;
    m.memory[0x300] = 0xFF;
    m.registers[0] = 64 + 60;
    m.registers[1] = 32 + 2;
    run(&mut m, 0xD011).unwrap();
    assert!(m.display[2][60..64].iter().all(|&p| p == 1));
    assert!(m.display[2][..60].iter().all(|&p| p == 0));
}

#[test]
fn sprite_out_of_memory_fails() {
    let mut m = machine(Mode::Chip8);
    m.index_register = 4094;
    assert_eq!(run(&mut m, 0xD013), Err(ExecError::MemoryOutOfRange));
    assert!(m.display.iter().all(|row| row.iter().all(|&p| p == 0)));
    m.index_register = 4093;
    assert_eq!(run(&mut m, 0xD013), Ok(Actions::Redraw));
}

#[test]
fn keys_skip() {
    let mut m = machine(Mode::Chip8);
    let mut keys = KeyboardState::new();
    keys.keys_pressed[4] = true;
    m.registers[1] = 4;
    m.execute_with_random(&decode(0xE19E), &keys, 0).unwrap();
    assert_eq!(m.program_counter, 0x204);
    m.execute_with_random(&decode(0xE1A1), &keys, 0).unwrap();
    assert_eq!(m.program_counter, 0x204);
    m.registers[1] = 20;
    m.execute_with_random(&decode(0xE1A1), &keys, 0).unwrap();
    assert_eq!(m.program_counter, 0x206);
}

#[test]
fn key_wait_blocks_until_press() {
    let mut m = Chip8::new(Mode::Chip8);
    m.load(&[0xF3, 0x0A]);
    let idle = KeyboardState::new();
    for _ in 0..3 {
        assert_eq!(cycle(&mut m, &idle), Ok(Actions::NoChange));
        assert_eq!(m.program_counter, 0x200);
    }
    let mut pressed = KeyboardState::new();
    pressed.pressed_key = Some(0xA);
    cycle(&mut m, &pressed).unwrap();
    assert_eq!(m.program_counter, 0x202);
    assert_eq!(m.registers[3], 0xA);
}

#[test]
fn timers_and_index_ops() {
    let mut m = machine(Mode::Chip8);
    m.registers[2] = 42;
    run(&mut m, 0xF215).unwrap();
    run(&mut m, 0xF218).unwrap();
    assert_eq!((m.delay_timer, m.sound_timer), (42, 42));
    m.delay_timer = 9;
    run(&mut m, 0xF307).unwrap();
    assert_eq!(m.registers[3], 9);
    m.index_register = 0xFFFF;
    run(&mut m, 0xF21E).unwrap();
    assert_eq!(m.index_register, 41);
    m.registers[2] = 0xA;
    run(&mut m, 0xF229).unwrap();
    assert_eq!(m.index_register, 0x50 + 50);
}

#[test]
fn bcd_of_254() {
    let mut m = machine(Mode::Chip8);
    m.registers[4] = 0xFE;
    m.index_register = 0x300;
    run(&mut m, 0xF433).unwrap();
    assert_eq!(&m.memory[0x300..0x303], &[2, 5, 4]);
    assert_eq!(m.index_register, 0x300);
}

#[test]
fn bcd_out_of_memory_fails() {
    let mut m = machine(Mode::Chip8);
    m.registers[4] = 7;
    m.index_register = 4094;
    assert_eq!(run(&mut m, 0xF433), Err(ExecError::MemoryOutOfRange));
    assert_eq!(m.memory[4094], 0);
    m.index_register = 4093;
    assert_eq!(run(&mut m, 0xF433), Ok(Actions::NoChange));
    assert_eq!(&m.memory[4093..4096], &[0, 0, 7]);
}

#[test]
fn store_load_round_trip_legacy() {
    let mut m = machine(Mode::Chip8);
    for i in 0..16 {
        m.registers[i] = (i as u8) * 3 + 1;
    }
    let original = m.registers;
    m.memory[0x304] = 0x77;
    m.index_register = 0x300;
    run(&mut m, 0xF355).unwrap();
    assert_eq!(m.index_register, 0x304);
    assert_eq!(&m.memory[0x300..0x304], &original[0..4]);
    assert_eq!(m.memory[0x304], 0x77);
    m.registers = [0; 16];
    m.index_register = 0x300;
    run(&mut m, 0xF365).unwrap();
    assert_eq!(m.index_register, 0x304);
    assert_eq!(&m.registers[0..4], &original[0..4]);
    assert_eq!(&m.registers[4..], &[0; 12]);
    m.registers = original;
    run(&mut m, 0xF355).unwrap();
    assert_eq!(m.index_register, 0x308);
    assert_eq!(&m.memory[0x300..0x304], &original[0..4]);
    assert_eq!(&m.memory[0x304..0x308], &original[0..4]);
    assert_eq!(m.memory[0x308], 0);
}

#[test]
fn store_load_round_trip_modern() {
    let mut m = machine(Mode::Chip48);
    for i in 0..16 {
        m.registers[i] = 200 - i as u8;
    }
    let original = m.registers;
    m.index_register = 0x400;
    run(&mut m, 0xFF55).unwrap();
    assert_eq!(m.index_register, 0x400);
    m.registers = [0; 16];
    run(&mut m, 0xFF65).unwrap();
    assert_eq!(m.registers, original);
    assert_eq!(m.index_register, 0x400);
}

#[test]
fn register_block_out_of_memory_fails() {
    let mut m = machine(Mode::Chip8);
    m.index_register = 4090;
    assert_eq!(run(&mut m, 0xF655), Err(ExecError::MemoryOutOfRange));
    assert_eq!(run(&mut m, 0xF665), Err(ExecError::MemoryOutOfRange));
    assert_eq!(m.index_register, 4090);
    assert_eq!(run(&mut m, 0xF555), Ok(Actions::NoChange));
    assert_eq!(m.index_register, 4096);
}

#[test]
fn unknown_opcodes_do_nothing() {
    let mut m = machine(Mode::Chip8);
    m.registers[1] = 3;
    for opcode in [0x0123, 0x8128, 0xE1FF, 0xF1FF] {
        assert_eq!(run(&mut m, opcode), Ok(Actions::NoChange));
    }
    assert_eq!(m.registers[1], 3);
    assert_eq!(m.program_counter, 0x202);
}
