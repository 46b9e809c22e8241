use octarou::cpu::HostInput;
use octarou::error::InterpreterError;
use octarou::instruction::Instruction;
use octarou::superchip::Superchip;

const NO_KEYS: [bool; 16] = [false; 16];

fn run(machine: &mut Superchip, instruction: Instruction) {
    assert!(machine.accepts(&instruction, &NO_KEYS, &NO_KEYS));
    assert_eq!(machine.execute_instruction(instruction, &NO_KEYS, &NO_KEYS), Ok(()));
}

fn set(machine: &mut Superchip, registers: &[(usize, u8)]) {
    for &(dest, value) in registers {
        run(machine, Instruction::SetLiteral { dest, value });
    }
}

fn lit(machine: &Superchip) -> Vec<(usize, usize)> {
    let mut lit = Vec::new();
    for (y, row) in machine.display().iter().enumerate() {
        for (x, &cell) in row.iter().enumerate() {
            assert!(cell <= 1);
            if cell == 1 {
                lit.push((x, y));
            }
        }
    }
    lit
}

fn block(xs: std::ops::Range<usize>, ys: std::ops::Range<usize>) -> Vec<(usize, usize)> {
    let mut cells = Vec::new();
    for y in ys {
        for x in xs.clone() {
            cells.push((x, y));
        }
    }
    cells
}

/// A machine whose memory holds `sprite` at 0x300, with the index there.
fn with_sprite(sprite: &[u8]) -> Superchip {
    let mut program = vec![0u8; 0x100];
    program.extend_from_slice(sprite);
    let mut machine = Superchip::new(&program);
    run(&mut machine, Instruction::SetIndex { src: 0x300 });
    machine
}

#[test]
fn superchip_starts_in_low_resolution_with_both_fonts() {
    let machine = Superchip::new(&[0x12, 0x34]);
    assert!(machine.is_running());
    assert!(!machine.is_hires());
    assert_eq!(machine.cpu().pc(), 0x200);
    assert_eq!(machine.cpu().memory_at(0x200), 0x12);
    assert_eq!(machine.cpu().memory_at(0x201), 0x34);
    assert_eq!(machine.cpu().memory_at(0x50), 0xF0);
    assert_eq!(machine.cpu().memory_at(0x9F), 0x80);
    assert_eq!(machine.cpu().memory_at(0xA0), 0xFF);
    assert_eq!(machine.cpu().memory_at(0xAA), 0x18);
    assert_eq!(machine.cpu().memory_at(0x13F), 0xC0);
    assert_eq!(machine.cpu().memory_at(0x140), 0x00);
    assert_eq!(machine.display().len(), 64);
    assert_eq!(machine.display()[63].len(), 128);
    assert!(lit(&machine).is_empty());
}

#[test]
fn low_resolution_doubles_every_pixel() {
    let mut machine = with_sprite(&[0b1010_0000]);
    set(&mut machine, &[(0, 1), (1, 2)]);
    run(&mut machine, Instruction::Draw { x: 0, y: 1, sprite_height: 1 });
    let mut expected = block(2..4, 4..6);
    expected.extend(block(6..8, 4..6));
    expected.sort_by_key(|&(x, y)| (y, x));
    assert_eq!(lit(&machine), expected);
    assert_eq!(machine.cpu().variable(0xF), 0);
}

#[test]
fn low_resolution_draw_collides_and_erases() {
    let mut machine = with_sprite(&[0xFF]);
    let draw = Instruction::Draw { x: 0, y: 0, sprite_height: 1 };
    run(&mut machine, draw);
    assert_eq!(lit(&machine), block(0..16, 0..2));
    assert_eq!(machine.cpu().variable(0xF), 0);
    run(&mut machine, draw);
    assert!(lit(&machine).is_empty());
    assert_eq!(machine.cpu().variable(0xF), 1);
}

#[test]
fn low_resolution_wraps_the_origin_and_clips() {
    let mut machine = with_sprite(&[0xFF, 0xFF]);
    // x = 2 * 63 = 126, y = 2 * (31 + 32) wraps to 62.
    set(&mut machine, &[(0, 63), (1, 63)]);
    run(&mut machine, Instruction::Draw { x: 0, y: 1, sprite_height: 2 });
    assert_eq!(lit(&machine), block(126..128, 62..64));
}

#[test]
fn high_resolution_draws_pixel_for_pixel() {
    let mut machine = with_sprite(&[0b1000_0001, 0b0100_0000]);
    run(&mut machine, Instruction::Hires);
    assert!(machine.is_hires());
    set(&mut machine, &[(0, 100), (1, 200)]);
    // y = 200 wraps to 8.
    run(&mut machine, Instruction::Draw { x: 0, y: 1, sprite_height: 2 });
    assert_eq!(lit(&machine), vec![(100, 8), (107, 8), (101, 9)]);
    assert_eq!(machine.cpu().variable(0xF), 0);
}

#[test]
fn high_resolution_height_zero_draws_sixteen_by_sixteen() {
    let mut sprite = vec![0u8; 32];
    sprite[0] = 0x80;
    sprite[1] = 0x01;
    sprite[30] = 0x00;
    sprite[31] = 0x03;
    let mut machine = with_sprite(&sprite);
    run(&mut machine, Instruction::Hires);
    set(&mut machine, &[(0, 10), (1, 20)]);
    run(&mut machine, Instruction::Draw { x: 0, y: 1, sprite_height: 0 });
    assert_eq!(lit(&machine), vec![(10, 20), (25, 20), (24, 35), (25, 35)]);
    assert_eq!(machine.cpu().variable(0xF), 0);
    run(&mut machine, Instruction::Draw { x: 0, y: 1, sprite_height: 0 });
    assert!(lit(&machine).is_empty());
    assert_eq!(machine.cpu().variable(0xF), 1);
}

#[test]
fn large_sprite_is_clipped_at_the_edges() {
    let sprite = vec![0xFFu8; 32];
    let mut machine = with_sprite(&sprite);
    run(&mut machine, Instruction::Hires);
    set(&mut machine, &[(0, 120), (1, 60)]);
    run(&mut machine, Instruction::Draw { x: 0, y: 1, sprite_height: 0 });
    assert_eq!(lit(&machine), block(120..128, 60..64));
}

#[test]
fn low_resolution_height_zero_draws_nothing() {
    let mut machine = with_sprite(&[0xFF; 32]);
    set(&mut machine, &[(0xF, 1)]);
    run(&mut machine, Instruction::Draw { x: 0, y: 1, sprite_height: 0 });
    assert!(lit(&machine).is_empty());
    assert_eq!(machine.cpu().variable(0xF), 0);
}

#[test]
fn scroll_down_moves_rows_and_blanks_the_top() {
    let mut machine = with_sprite(&[0x80]);
    run(&mut machine, Instruction::Hires);
    set(&mut machine, &[(0, 5), (1, 0), (2, 63)]);
    run(&mut machine, Instruction::Draw { x: 0, y: 1, sprite_height: 1 });
    run(&mut machine, Instruction::Draw { x: 0, y: 2, sprite_height: 1 });
    assert_eq!(lit(&machine), vec![(5, 0), (5, 63)]);
    run(&mut machine, Instruction::ScrollDown { amount: 1 });
    assert_eq!(lit(&machine), vec![(5, 1)]);
    run(&mut machine, Instruction::Lores);
    run(&mut machine, Instruction::ScrollDown { amount: 1 });
    assert_eq!(lit(&machine), vec![(5, 3)]);
    run(&mut machine, Instruction::ScrollDown { amount: 15 });
    assert_eq!(lit(&machine), vec![(5, 33)]);
    run(&mut machine, Instruction::ScrollDown { amount: 0 });
    assert_eq!(lit(&machine), vec![(5, 33)]);
    run(&mut machine, Instruction::ScrollDown { amount: 15 });
    run(&mut machine, Instruction::ScrollDown { amount: 1 });
    assert!(lit(&machine).is_empty());
}

#[test]
fn horizontal_scrolls_move_four_columns_or_eight() {
    let mut machine = with_sprite(&[0x80]);
    run(&mut machine, Instruction::Hires);
    set(&mut machine, &[(0, 3), (1, 7), (2, 124)]);
    run(&mut machine, Instruction::Draw { x: 0, y: 1, sprite_height: 1 });
    run(&mut machine, Instruction::Draw { x: 2, y: 1, sprite_height: 1 });
    assert_eq!(lit(&machine), vec![(3, 7), (124, 7)]);
    run(&mut machine, Instruction::ScrollRight);
    assert_eq!(lit(&machine), vec![(7, 7)]);
    run(&mut machine, Instruction::ScrollLeft);
    assert_eq!(lit(&machine), vec![(3, 7)]);
    run(&mut machine, Instruction::ScrollLeft);
    assert!(lit(&machine).is_empty());
    run(&mut machine, Instruction::Draw { x: 2, y: 1, sprite_height: 1 });
    run(&mut machine, Instruction::Lores);
    run(&mut machine, Instruction::ScrollLeft);
    assert_eq!(lit(&machine), vec![(116, 7)]);
    run(&mut machine, Instruction::ScrollRight);
    assert_eq!(lit(&machine), vec![(124, 7)]);
    run(&mut machine, Instruction::ScrollRight);
    assert!(lit(&machine).is_empty());
}

#[test]
fn switching_resolution_keeps_the_picture() {
    let mut machine = with_sprite(&[0xC0]);
    run(&mut machine, Instruction::Draw { x: 0, y: 0, sprite_height: 1 });
    let before = lit(&machine);
    assert_eq!(before, block(0..4, 0..2));
    run(&mut machine, Instruction::Hires);
    assert_eq!(lit(&machine), before);
    run(&mut machine, Instruction::Lores);
    assert_eq!(lit(&machine), before);
    assert!(!machine.is_hires());
}

#[test]
fn exit_stops_the_machine() {
    let mut machine = Superchip::new(&[]);
    run(&mut machine, Instruction::Exit);
    assert!(!machine.is_running());
    run(&mut machine, Instruction::SetLiteral { dest: 0, value: 1 });
    assert!(!machine.is_running());
}

#[test]
fn flag_storage_is_accepted_and_does_nothing() {
    let mut machine = Superchip::new(&[]);
    set(&mut machine, &[(0, 9), (0xF, 3)]);
    run(&mut machine, Instruction::SaveFlags { x: 7 });
    run(&mut machine, Instruction::LoadFlags { x: 7 });
    assert_eq!(machine.cpu().variable(0), 9);
    assert_eq!(machine.cpu().variable(0xF), 3);
    assert_eq!(machine.cpu().pc(), 0x200);
}

#[test]
fn big_glyphs_have_ten_rows() {
    let mut machine = Superchip::new(&[]);
    set(&mut machine, &[(3, 0x21)]);
    run(&mut machine, Instruction::SetIndexFont { src: 3, big: true });
    assert_eq!(machine.cpu().index(), 0xA0 + 10);
    let glyph: Vec<u8> = (0..10).map(|row| machine.cpu().memory_at(0xAA + row)).collect();
    assert_eq!(glyph, vec![0x18, 0x78, 0x78, 0x18, 0x18, 0x18, 0x18, 0x18, 0xFF, 0xFF]);
    run(&mut machine, Instruction::SetIndexFont { src: 3, big: false });
    assert_eq!(machine.cpu().index(), 0x50 + 5);
    set(&mut machine, &[(3, 0x0F)]);
    run(&mut machine, Instruction::SetIndexFont { src: 3, big: true });
    assert_eq!(machine.cpu().index(), 0xA0 + 150);
    assert_eq!(machine.cpu().memory_at(0xA0 + 159), 0xC0);
}

#[test]
fn shifts_work_in_place() {
    let mut machine = Superchip::new(&[]);
    set(&mut machine, &[(0, 0x81), (1, 0x02)]);
    run(&mut machine, Instruction::LeftShift { lhs: 0, rhs: 1 });
    assert_eq!(machine.cpu().variable(0), 0x02);
    assert_eq!(machine.cpu().variable(0xF), 1);
    set(&mut machine, &[(0, 0x05)]);
    run(&mut machine, Instruction::RightShift { lhs: 0, rhs: 1 });
    assert_eq!(machine.cpu().variable(0), 0x02);
    assert_eq!(machine.cpu().variable(1), 0x02);
    assert_eq!(machine.cpu().variable(0xF), 1);
}

#[test]
fn jump_offset_adds_the_named_register() {
    let mut machine = Superchip::new(&[]);
    set(&mut machine, &[(0, 0x10), (3, 0x80)]);
    run(&mut machine, Instruction::JumpOffset { address: 0x300, offset_register: 3 });
    assert_eq!(machine.cpu().pc(), 0x380);
}

#[test]
fn superchip_return_on_an_empty_stack_fails() {
    let mut machine = Superchip::new(&[]);
    let done = machine.execute_instruction(Instruction::Return, &NO_KEYS, &NO_KEYS);
    assert_eq!(done, Err(InterpreterError::PopOutOfMain));
    assert!(machine.is_running());
}

#[test]
fn superchip_get_key_waits_by_rewinding() {
    let mut machine = Superchip::new(&[0xF3, 0x0A]);
    let instruction = machine.next_instruction().unwrap();
    assert_eq!(instruction, Instruction::GetKey { dest: 3 });
    run(&mut machine, instruction);
    assert_eq!(machine.cpu().pc(), 0x200);
    let mut released = [false; 16];
    released[0xF] = true;
    let instruction = machine.next_instruction().unwrap();
    assert_eq!(machine.execute_instruction(instruction, &NO_KEYS, &released), Ok(()));
    assert_eq!(machine.cpu().pc(), 0x202);
    assert_eq!(machine.cpu().variable(3), 0xF);
}

#[test]
fn superchip_random_is_masked() {
    let mut machine = Superchip::new(&[]);
    let host = HostInput { key_down: false, released: None, random: 0xFF };
    assert!(machine.accepts_with(&Instruction::Random { x: 1, mask: 0x3C }, &host));
    assert_eq!(machine.execute_with(Instruction::Random { x: 1, mask: 0x3C }, host), Ok(()));
    assert_eq!(machine.cpu().variable(1), 0x3C);
}

#[test]
fn frame_is_the_display_row_after_row() {
    let mut machine = with_sprite(&[0x80]);
    run(&mut machine, Instruction::Hires);
    set(&mut machine, &[(0, 5), (1, 3)]);
    run(&mut machine, Instruction::Draw { x: 0, y: 1, sprite_height: 1 });
    let frame = machine.frame();
    assert_eq!(frame.len(), 128 * 64);
    let lit: Vec<usize> = (0..frame.len()).filter(|&i| frame[i] != 0).collect();
    assert_eq!(lit, vec![3 * 128 + 5]);
    assert_eq!(frame[3 * 128 + 5], 1);
}

#[test]
fn superchip_three_instructions_end_to_end() {
    let mut machine = Superchip::new(&[0x60, 0x05, 0x70, 0x03, 0x00, 0xE0]);
    machine.update_timers();
    for _ in 0..3 {
        let instruction = machine.next_instruction().unwrap();
        run(&mut machine, instruction);
    }
    assert_eq!(machine.cpu().variable(0), 8);
    assert!(lit(&machine).is_empty());
    assert_eq!(machine.next_instruction(), Err(InterpreterError::UnknownOpcode {
        opcode: 0,
        address: 0x208,
    }));
}

#[test]
fn superchip_begin_tick_counts_the_timers_down_once() {
    let mut machine = Superchip::new(&[]);
    set(&mut machine, &[(0, 2)]);
    run(&mut machine, Instruction::SetSound { src: 0 });
    let mut pacer = machine.begin_tick(500);
    assert_eq!(machine.cpu().sound_timer(), 1);
    assert_eq!(machine.cpu().delay_timer(), 0);
    assert_eq!(pacer.after_instruction(0).sleep, 2_000_000);
}

#[test]
fn superchip_cycle_fetches_and_executes() {
    // Hires, scroll down by 2, exit, then nothing that decodes.
    let mut machine = Superchip::new(&[0x00, 0xFF, 0x00, 0xC2, 0x00, 0xFD, 0xFF, 0xFF]);
    for _ in 0..3 {
        assert!(machine.is_ready(&NO_KEYS, &NO_KEYS));
        assert_eq!(machine.cycle(&NO_KEYS, &NO_KEYS), Ok(()));
    }
    assert!(machine.is_hires());
    assert!(!machine.is_running());
    assert_eq!(machine.cpu().pc(), 0x206);
    let unknown = InterpreterError::UnknownOpcode { opcode: 0xFFFF, address: 0x208 };
    assert_eq!(machine.cycle(&NO_KEYS, &NO_KEYS), Err(unknown));
    assert_eq!(machine.cpu().pc(), 0x208);
}

#[test]
fn superchip_is_not_ready_for_a_sprite_outside_memory() {
    // Hires, I = 0xFF0, draw the large sprite: 32 bytes from 0xFF0.
    let mut machine = Superchip::new(&[0x00, 0xFF, 0xAF, 0xF0, 0xD0, 0x00]);
    assert_eq!(machine.cycle(&NO_KEYS, &NO_KEYS), Ok(()));
    assert_eq!(machine.cycle(&NO_KEYS, &NO_KEYS), Ok(()));
    assert!(!machine.is_ready(&NO_KEYS, &NO_KEYS));
    let host = HostInput { key_down: false, released: None, random: 0 };
    assert!(!machine.is_ready_with(&host));
    // In low resolution the same opcode draws nothing and reads nothing.
    let mut machine = Superchip::new(&[0xAF, 0xF0, 0xD0, 0x00]);
    assert_eq!(machine.cycle(&NO_KEYS, &NO_KEYS), Ok(()));
    assert!(machine.is_ready(&NO_KEYS, &NO_KEYS));
    assert!(machine.is_ready_with(&host));
}
