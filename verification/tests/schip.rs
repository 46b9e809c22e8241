use octarou::error::InterpreterError;
use octarou::instruction::Instruction;
use octarou::schip::{Schip, DEFAULT_SPEED};
use octarou::window::{Display, Input};

/// A window that answers from a script and records what it is shown.
struct Script {
    open: bool,
    down: [bool; 16],
    released: Option<u8>,
    shown: Vec<(Vec<u8>, usize, usize)>,
}

impl Script {
    fn new() -> Self {
        Script { open: true, down: [false; 16], released: None, shown: Vec::new() }
    }
}

impl Display for Script {
    fn is_open(&self) -> bool {
        self.open
    }

    fn update_buffer(&mut self, new_buffer: &[u8], width: usize, height: usize) {
        self.shown.push((new_buffer.to_vec(), width, height));
    }

    fn update(&mut self) {}
}

impl Input for Script {
    fn is_key_down(&self, key: u8) -> bool {
        assert!(key < 16);
        self.down[key as usize]
    }

    fn get_key(&self) -> Option<u8> {
        self.released
    }
}

fn run(machine: &mut Schip<Script>, instruction: Instruction) {
    assert!(machine.accepts(&instruction));
    assert_eq!(machine.execute_instruction(instruction), Ok(()));
}

#[test]
fn schip_without_a_program_starts_empty() {
    let machine = Schip::new(Script::new(), DEFAULT_SPEED, None);
    assert_eq!(machine.speed(), 700);
    assert_eq!(machine.machine().cpu().pc(), 0x200);
    assert_eq!(machine.machine().cpu().memory_at(0x200), 0);
    assert_eq!(machine.machine().cpu().memory_at(0xA0), 0xFF);
    assert!(machine.display_open());
}

#[test]
fn schip_runs_its_program() {
    let program = [0x60, 0x05, 0x70, 0x03, 0x00, 0xE0];
    let mut machine = Schip::new(Script::new(), 1000, Some(&program));
    assert_eq!(machine.speed(), 1000);
    machine.update_timers();
    for _ in 0..3 {
        let instruction = machine.next_instruction().unwrap();
        run(&mut machine, instruction);
    }
    assert_eq!(machine.machine().cpu().variable(0), 8);
    assert_eq!(machine.machine().cpu().pc(), 0x206);
}

#[test]
fn schip_asks_the_window_for_keys() {
    let mut window = Script::new();
    window.down[7] = true;
    let mut machine = Schip::new(window, DEFAULT_SPEED, None);
    run(&mut machine, Instruction::SetLiteral { dest: 2, value: 7 });
    run(&mut machine, Instruction::SkipIfKey { key_register: 2 });
    assert_eq!(machine.machine().cpu().pc(), 0x202);
    run(&mut machine, Instruction::SkipIfNotKey { key_register: 2 });
    assert_eq!(machine.machine().cpu().pc(), 0x202);
    run(&mut machine, Instruction::SetLiteral { dest: 2, value: 8 });
    run(&mut machine, Instruction::SkipIfKey { key_register: 2 });
    assert_eq!(machine.machine().cpu().pc(), 0x202);
    run(&mut machine, Instruction::SkipIfNotKey { key_register: 2 });
    assert_eq!(machine.machine().cpu().pc(), 0x204);
}

#[test]
fn schip_does_not_ask_for_a_key_that_does_not_exist() {
    let mut machine = Schip::new(Script::new(), DEFAULT_SPEED, None);
    run(&mut machine, Instruction::SetLiteral { dest: 2, value: 16 });
    assert!(!machine.accepts(&Instruction::SkipIfKey { key_register: 2 }));
    assert!(!machine.accepts(&Instruction::SkipIfNotKey { key_register: 2 }));
}

#[test]
fn schip_waits_for_a_released_key() {
    let mut machine = Schip::new(Script::new(), DEFAULT_SPEED, Some(&[0xF1, 0x0A]));
    let instruction = machine.next_instruction().unwrap();
    run(&mut machine, instruction);
    assert_eq!(machine.machine().cpu().pc(), 0x200);
    assert_eq!(machine.machine().cpu().variable(1), 0);

    let mut window = Script::new();
    window.released = Some(0xB);
    let mut machine = Schip::new(window, DEFAULT_SPEED, Some(&[0xF1, 0x0A]));
    let instruction = machine.next_instruction().unwrap();
    run(&mut machine, instruction);
    assert_eq!(machine.machine().cpu().pc(), 0x202);
    assert_eq!(machine.machine().cpu().variable(1), 0xB);
}

#[test]
fn schip_random_is_masked() {
    let mut machine = Schip::new(Script::new(), DEFAULT_SPEED, None);
    for _ in 0..64 {
        run(&mut machine, Instruction::Random { x: 4, mask: 0x81 });
        assert_eq!(machine.machine().cpu().variable(4) & !0x81, 0);
    }
}

#[test]
fn schip_shows_the_window_the_picture() {
    let mut program = vec![0u8; 0x101];
    program[0x100] = 0x80;
    let mut machine = Schip::new(Script::new(), DEFAULT_SPEED, Some(&program));
    run(&mut machine, Instruction::Hires);
    run(&mut machine, Instruction::SetIndex { src: 0x300 });
    run(&mut machine, Instruction::SetLiteral { dest: 0, value: 9 });
    run(&mut machine, Instruction::SetLiteral { dest: 1, value: 2 });
    run(&mut machine, Instruction::Draw { x: 0, y: 1, sprite_height: 1 });
    machine.present();
    let shown = &machine.window().shown;
    assert_eq!(shown.len(), 1);
    let (buffer, width, height) = &shown[0];
    assert_eq!((*width, *height), (128, 64));
    assert_eq!(buffer.len(), 128 * 64);
    let lit: Vec<usize> = (0..buffer.len()).filter(|&i| buffer[i] != 0).collect();
    assert_eq!(lit, vec![2 * 128 + 9]);
}

#[test]
fn schip_is_closed_after_exit_or_when_the_window_closes() {
    let mut machine = Schip::new(Script::new(), DEFAULT_SPEED, None);
    assert!(machine.display_open());
    run(&mut machine, Instruction::Exit);
    assert!(!machine.display_open());

    let mut window = Script::new();
    window.open = false;
    let machine = Schip::new(window, DEFAULT_SPEED, None);
    assert!(!machine.display_open());
}

#[test]
fn schip_return_on_an_empty_stack_fails() {
    let mut machine = Schip::new(Script::new(), DEFAULT_SPEED, None);
    assert_eq!(machine.execute_instruction(Instruction::Return), Err(InterpreterError::PopOutOfMain));
}

#[test]
fn schip_goes_on_while_running_and_open() {
    let mut machine = Schip::new(Script::new(), DEFAULT_SPEED, None);
    assert!(machine.open_given(true));
    assert!(!machine.open_given(false));
    run(&mut machine, Instruction::Exit);
    assert!(!machine.open_given(true));
    assert!(!machine.open_given(false));
}

#[test]
fn schip_asks_about_the_key_in_the_register() {
    let mut machine = Schip::new(Script::new(), DEFAULT_SPEED, None);
    run(&mut machine, Instruction::SetLiteral { dest: 2, value: 7 });
    assert_eq!(machine.key_asked(&Instruction::SkipIfKey { key_register: 2 }), Some(7));
    assert_eq!(machine.key_asked(&Instruction::SkipIfNotKey { key_register: 2 }), Some(7));
    assert_eq!(machine.key_asked(&Instruction::SkipIfKey { key_register: 3 }), Some(0));
    assert_eq!(machine.key_asked(&Instruction::GetKey { dest: 2 }), None);
    assert_eq!(machine.key_asked(&Instruction::ClearScreen), None);
}

#[test]
fn schip_cycle_fetches_and_executes() {
    let mut window = Script::new();
    window.down[5] = true;
    // V0 = 5, skip if key V0 is down, (skipped), V1 = 9, then nothing.
    let program = [0x60, 0x05, 0xE0, 0x9E, 0x61, 0x01, 0x61, 0x09, 0xFF, 0xFF];
    let mut machine = Schip::new(window, 1000, Some(&program));
    let mut pacer = machine.begin_tick();
    assert_eq!(pacer.after_instruction(0).sleep, 1_000_000);
    for _ in 0..3 {
        assert!(machine.is_ready());
        assert_eq!(machine.cycle(), Ok(()));
    }
    assert_eq!(machine.machine().cpu().variable(1), 9);
    assert_eq!(machine.machine().cpu().pc(), 0x208);
    assert!(machine.is_ready());
    let unknown = InterpreterError::UnknownOpcode { opcode: 0xFFFF, address: 0x20A };
    assert_eq!(machine.cycle(), Err(unknown));
    assert_eq!(machine.machine().cpu().pc(), 0x20A);
}

#[test]
fn schip_is_not_ready_for_a_key_that_does_not_exist() {
    // V0 = 16, then a test of key V0.
    let mut machine = Schip::new(Script::new(), DEFAULT_SPEED, Some(&[0x60, 0x10, 0xE0, 0xA1]));
    assert!(machine.is_ready());
    assert_eq!(machine.cycle(), Ok(()));
    assert!(!machine.is_ready());
}

#[test]
fn schip_begin_tick_counts_the_timers_down_once() {
    let mut machine = Schip::new(Script::new(), DEFAULT_SPEED, None);
    run(&mut machine, Instruction::SetLiteral { dest: 0, value: 2 });
    run(&mut machine, Instruction::SetDelay { src: 0 });
    let mut pacer = machine.begin_tick();
    assert_eq!(machine.machine().cpu().delay_timer(), 1);
    assert_eq!(pacer.after_instruction(0).sleep, 1_000_000_000 / 700);
}
