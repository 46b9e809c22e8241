use octarou::cpu::HostInput;
use octarou::display::{Display, HEIGHT, LIT, PIXELS, WIDTH};
use octarou::error::InterpreterError;
use octarou::operation::Operation;
use octarou::state::State;

const NO_KEYS: [bool; 16] = [false; 16];
const NO_INPUT: HostInput = HostInput { key_down: false, released: None, random: 0 };

fn tick(state: &mut State) -> Result<(), InterpreterError> {
    assert!(state.is_ready(&NO_KEYS, &NO_KEYS));
    state.tick(&NO_KEYS, &NO_KEYS)
}

fn lit(state: &State) -> Vec<(usize, usize)> {
    let mut lit = Vec::new();
    for y in 0..HEIGHT {
        for x in 0..WIDTH {
            if state.display().pixel(y, x) == 1 {
                lit.push((x, y));
            }
        }
    }
    lit
}

#[test]
fn new_state_is_all_zero() {
    let state = State::new();
    assert_eq!(state.cpu().pc(), 0);
    assert_eq!(state.cpu().index(), 0);
    for address in 0..4096 {
        assert_eq!(state.cpu().memory_at(address), 0);
    }
    for register in 0..16 {
        assert_eq!(state.cpu().variable(register), 0);
    }
    assert_eq!(state.display().buffer().len(), PIXELS);
    assert!(state.display().buffer().iter().all(|&colour| colour == 0));
}

#[test]
fn default_state_holds_the_small_glyphs() {
    let state = State::default();
    assert_eq!(state.cpu().pc(), 0);
    assert_eq!(state.cpu().memory_at(0x4F), 0);
    assert_eq!(state.cpu().memory_at(0x50), 0xF0);
    assert_eq!(state.cpu().memory_at(0x51), 0x90);
    assert_eq!(state.cpu().memory_at(0x9F), 0x80);
    assert_eq!(state.cpu().memory_at(0xA0), 0);
}

#[test]
fn load_program_copies_the_program_and_points_at_it() {
    let mut state = State::default();
    state.load_program(&vec![0x60, 0x05, 0x70, 0x03]);
    assert_eq!(state.cpu().pc(), 0x200);
    assert_eq!(state.cpu().memory_at(0x1FF), 0);
    assert_eq!(state.cpu().memory_at(0x200), 0x60);
    assert_eq!(state.cpu().memory_at(0x203), 0x03);
    assert_eq!(state.cpu().memory_at(0x204), 0);
    assert_eq!(state.cpu().memory_at(0x50), 0xF0);
}

#[test]
fn tick_executes_one_operation() {
    let mut state = State::default();
    state.load_program(&vec![0x60, 0x05, 0x70, 0x03, 0x00, 0xE0]);
    assert_eq!(tick(&mut state), Ok(()));
    assert_eq!(state.cpu().variable(0), 5);
    assert_eq!(state.cpu().pc(), 0x202);
    assert_eq!(tick(&mut state), Ok(()));
    assert_eq!(state.cpu().variable(0), 8);
    assert_eq!(tick(&mut state), Ok(()));
    assert_eq!(state.cpu().pc(), 0x206);
    assert!(lit(&state).is_empty());
}

#[test]
fn tick_reports_what_it_cannot_decode() {
    let mut state = State::default();
    // 00FF is no CHIP-8 operation, FFFF is no instruction at all.
    state.load_program(&vec![0x00, 0xFF, 0xFF, 0xFF, 0x6A, 0x11]);
    let unknown = InterpreterError::UnknownOpcode { opcode: 0x00FF, address: 0x202 };
    assert_eq!(tick(&mut state), Err(unknown));
    assert!(!unknown.is_fatal());
    assert_eq!(state.cpu().pc(), 0x202);
    assert_eq!(state.cpu().variable(0xA), 0);
    let unknown = InterpreterError::UnknownOpcode { opcode: 0xFFFF, address: 0x204 };
    assert_eq!(tick(&mut state), Err(unknown));
    assert_eq!(state.cpu().pc(), 0x204);
    assert_eq!(state.cpu().variable(0xA), 0);
    assert_eq!(tick(&mut state), Ok(()));
    assert_eq!(state.cpu().variable(0xA), 0x11);
    assert_eq!(state.cpu().pc(), 0x206);
}

#[test]
fn next_operation_consumes_one_word() {
    let mut state = State::default();
    state.load_program(&vec![0x00, 0x00, 0x60, 0x05]);
    let unknown = InterpreterError::UnknownOpcode { opcode: 0x0000, address: 0x202 };
    assert_eq!(state.next_operation(), Err(unknown));
    assert_eq!(state.cpu().pc(), 0x202);
    let operation = Operation::SetLiteral { dest: 0, value: 5 };
    assert_eq!(state.next_operation(), Ok(operation));
    assert_eq!(state.cpu().pc(), 0x204);
    assert_eq!(state.cpu().variable(0), 0);
}

#[test]
fn tick_fails_where_memory_ends() {
    let mut state = State::default();
    state.load_program(&vec![0x1F, 0xFE]);
    assert_eq!(tick(&mut state), Ok(()));
    assert_eq!(state.cpu().pc(), 0xFFE);
    let unknown = InterpreterError::UnknownOpcode { opcode: 0, address: 0x1000 };
    assert_eq!(tick(&mut state), Err(unknown));
    assert_eq!(state.cpu().pc(), 0x1000);
    assert_eq!(tick(&mut state), Err(InterpreterError::OutOfMemory));
    assert_eq!(state.cpu().pc(), 0x1000);
    assert_eq!(state.next_operation(), Err(InterpreterError::OutOfMemory));
    assert_eq!(state.cpu().pc(), 0x1000);
}

#[test]
fn tick_brings_the_colour_buffer_up_to_date() {
    let mut state = State::default();
    // V0 = 1, V1 = 3, V2 = 4, I = glyph of V0, draw 5 rows at (V1, V2).
    state.load_program(&vec![0x60, 0x01, 0x61, 0x03, 0x62, 0x04, 0xF0, 0x29, 0xD1, 0x25]);
    for _ in 0..5 {
        assert_eq!(tick(&mut state), Ok(()));
    }
    assert_eq!(state.cpu().index(), 0x55);
    let expected = vec![(5, 4), (4, 5), (5, 5), (5, 6), (5, 7), (4, 8), (5, 8), (6, 8)];
    assert_eq!(lit(&state), expected);
    let buffer = state.display().buffer();
    for y in 0..HEIGHT {
        for x in 0..WIDTH {
            let colour = if expected.contains(&(x, y)) { LIT } else { 0 };
            assert_eq!(buffer[y * WIDTH + x], colour);
        }
    }
    assert_eq!(LIT, 0xffffff);
    assert_eq!(state.cpu().variable(0xF), 0);
}

#[test]
fn execute_operation_leaves_the_colour_buffer_alone() {
    let mut state = State::default();
    let operations = [
        Operation::SetLiteral { dest: 0, value: 2 },
        Operation::SetIndexFont { src: 0 },
        Operation::Draw { x: 1, y: 1, sprite_height: 5 },
    ];
    for operation in operations {
        assert!(state.accepts(&operation, &NO_INPUT));
        assert_eq!(state.execute_operation(operation, NO_INPUT), Ok(()));
    }
    assert_eq!(state.cpu().index(), 0x50 + 10);
    assert!(!lit(&state).is_empty());
    assert!(state.display().buffer().iter().all(|&colour| colour == 0));
}

#[test]
fn state_reports_a_return_without_a_call() {
    let mut state = State::default();
    state.load_program(&vec![0x00, 0xEE]);
    assert_eq!(tick(&mut state), Err(InterpreterError::PopOutOfMain));
    assert_eq!(state.cpu().pc(), 0x202);
}

#[test]
fn state_is_not_ready_for_a_store_beyond_memory() {
    let mut state = State::default();
    // I = 0xFFF, store V0..=V1.
    state.load_program(&vec![0xAF, 0xFF, 0xF1, 0x55]);
    assert_eq!(tick(&mut state), Ok(()));
    assert!(!state.is_ready(&NO_KEYS, &NO_KEYS));
}

#[test]
fn state_reads_the_keypad() {
    let mut state = State::default();
    // V3 = 9, skip if key V3 is down, wait for a key into V4.
    state.load_program(&vec![0x63, 0x09, 0xE3, 0x9E, 0xF4, 0x0A, 0xF4, 0x0A]);
    assert_eq!(tick(&mut state), Ok(()));
    let mut down = [false; 16];
    down[9] = true;
    assert!(state.is_ready(&down, &NO_KEYS));
    assert_eq!(state.tick(&down, &NO_KEYS), Ok(()));
    assert_eq!(state.cpu().pc(), 0x206);
    assert_eq!(tick(&mut state), Ok(()));
    assert_eq!(state.cpu().pc(), 0x206);
    let mut released = [false; 16];
    released[2] = true;
    assert_eq!(state.tick(&NO_KEYS, &released), Ok(()));
    assert_eq!(state.cpu().pc(), 0x208);
    assert_eq!(state.cpu().variable(4), 2);
}

#[test]
fn display_clear_blanks_pixels_and_colours() {
    let mut state = State::default();
    state.load_program(&vec![0xD0, 0x05]);
    // The sprite at I = 0 is blank; point I at a glyph first.
    let operation = Operation::SetIndexFont { src: 0 };
    assert_eq!(state.execute_operation(operation, NO_INPUT), Ok(()));
    assert_eq!(tick(&mut state), Ok(()));
    assert!(state.display().buffer().iter().any(|&colour| colour == LIT));

    let mut display = Display::new();
    assert!(display.buffer().iter().all(|&colour| colour == 0));
    display.update();
    assert!(display.buffer().iter().all(|&colour| colour == 0));
    display.clear();
    assert_eq!(display.buffer().len(), 2048);
    assert_eq!(display.pixel(31, 63), 0);
}
