use chip8::machine::{FONTSET, FONTSET_START_ADDRESS, PROGRAM_START_ADDRESS};
use chip8::{decode, keypad_index, Chip8, KeyAction, KeyboardState, Mode};

#[test]
fn decode_splits_fields() {
    let op = decode(0xD12F);
    assert_eq!(op.instruction, 0xD);
    assert_eq!(op.x, 0x1);
    assert_eq!(op.y, 0x2);
    assert_eq!(op.n, 0xF);
    assert_eq!(op.nn, 0x2F);
    assert_eq!(op.nnn, 0x12F);
}

#[test]
fn decode_extremes() {
    let zero = decode(0x0000);
    assert_eq!((zero.instruction, zero.x, zero.y, zero.n, zero.nn, zero.nnn), (0, 0, 0, 0, 0, 0));
    let ones = decode(0xFFFF);
    assert_eq!(
        (ones.instruction, ones.x, ones.y, ones.n, ones.nn, ones.nnn),
        (0xF, 0xF, 0xF, 0xF, 0xFF, 0xFFF)
    );
}

#[test]
fn new_machine_is_reset() {
    let m = Chip8::new(Mode::Chip48);
    assert_eq!(m.program_counter, 0x200);
    assert_eq!(m.stack_pointer, -1);
    assert_eq!(m.index_register, 0);
    assert_eq!(m.registers, [0; 16]);
    assert_eq!(m.delay_timer, 0);
    assert_eq!(m.sound_timer, 0);
    assert_eq!(m.mode, Mode::Chip48);
    assert!(m.display.iter().all(|row| row.iter().all(|&p| p == 0)));
    assert_eq!(&m.memory[FONTSET_START_ADDRESS..FONTSET_START_ADDRESS + 80], &FONTSET[..]);
    assert_eq!(m.memory[0x50], 0xF0);
    assert_eq!(m.memory[0x9F], 0x80);
    assert!(m.memory[..FONTSET_START_ADDRESS].iter().all(|&b| b == 0));
    assert!(m.memory[FONTSET_START_ADDRESS + 80..].iter().all(|&b| b == 0));
}

#[test]
fn default_mode_is_legacy() {
    assert_eq!(Mode::default(), Mode::Chip8);
}

#[test]
fn load_places_program_at_start() {
    let mut m = Chip8::new(Mode::Chip8);
    m.load(&[0x12, 0x34, 0x56]);
    assert_eq!(m.memory[PROGRAM_START_ADDRESS], 0x12);
    assert_eq!(m.memory[0x201], 0x34);
    assert_eq!(m.memory[0x202], 0x56);
    assert_eq!(m.memory[0x203], 0);
    assert_eq!(m.memory[0x50], 0xF0);
}

#[test]
fn load_largest_program() {
    let mut m = Chip8::new(Mode::Chip8);
    let program = vec![0xAB; 4096 - 0x200];
    m.load(&program);
    assert_eq!(m.memory[0x200], 0xAB);
    assert_eq!(m.memory[4095], 0xAB);
    assert_eq!(m.memory[0x1FF], 0);
}

#[test]
fn fetch_reads_big_endian_and_advances() {
    let mut m = Chip8::new(Mode::Chip8);
    m.load(&[0xA2, 0xF0, 0x00, 0xE0]);
    assert_eq!(m.fetch(), 0xA2F0);
    assert_eq!(m.program_counter, 0x202);
    assert_eq!(m.fetch(), 0x00E0);
    assert_eq!(m.program_counter, 0x204);
}

#[test]
fn timers_tick_down_to_zero() {
    let mut m = Chip8::new(Mode::Chip8);
    m.delay_timer = 2;
    m.sound_timer = 0;
    m.tick_timers();
    assert_eq!((m.delay_timer, m.sound_timer), (1, 0));
    m.tick_timers();
    m.tick_timers();
    assert_eq!((m.delay_timer, m.sound_timer), (0, 0));
}

#[test]
fn keyboard_starts_empty() {
    let k = KeyboardState::new();
    assert_eq!(k.keys_pressed, [false; 16]);
    assert_eq!(k.pressed_key, None);
}

#[test]
fn keypad_layout() {
    assert_eq!(keypad_index('x'), Some(0));
    assert_eq!(keypad_index('1'), Some(1));
    assert_eq!(keypad_index('4'), Some(0xC));
    assert_eq!(keypad_index('v'), Some(0xF));
    assert_eq!(keypad_index('y'), None);
}

#[test]
fn key_events_update_snapshot() {
    let mut k = KeyboardState::new();
    k.record(5, KeyAction::Press);
    assert!(k.keys_pressed[5]);
    assert_eq!(k.pressed_key, Some(5));
    k.clear_pressed();
    assert!(k.keys_pressed[5]);
    assert_eq!(k.pressed_key, None);
    k.record(5, KeyAction::Repeat);
    assert!(k.keys_pressed[5]);
    assert_eq!(k.pressed_key, None);
    k.record(5, KeyAction::Release);
    assert!(!k.keys_pressed[5]);
}
