use octarou::args::{Args, Variant};
use octarou::keypad::{first_keyval, key_to_keyval, keyval_to_key, Key};
use octarou::pacer::{Pace, Pacer, TIMER_CYCLE};
use octarou::program::Program;
use octarou::window::to_colours;

#[test]
fn keypad_layout() {
    let layout = [
        (0x1, Key::Key1),
        (0x2, Key::Key2),
        (0x3, Key::Key3),
        (0xC, Key::Key4),
        (0x4, Key::Q),
        (0x5, Key::W),
        (0x6, Key::E),
        (0xD, Key::R),
        (0x7, Key::A),
        (0x8, Key::S),
        (0x9, Key::D),
        (0xE, Key::F),
        (0xA, Key::Z),
        (0x0, Key::X),
        (0xB, Key::C),
        (0xF, Key::V),
    ];
    for (keyval, key) in layout {
        assert_eq!(keyval_to_key(keyval), Some(key));
        assert_eq!(key_to_keyval(&key), Some(keyval));
    }
}

#[test]
fn keypad_round_trip() {
    for keyval in 0..=255u8 {
        match keyval_to_key(keyval) {
            Some(key) => {
                assert!(keyval < 16);
                assert_eq!(key_to_keyval(&key), Some(keyval));
            }
            None => assert!(keyval >= 16),
        }
    }
    assert_eq!(key_to_keyval(&Key::Other), None);
}

#[test]
fn pacer_sleeps_out_the_rest_of_a_cycle() {
    // 1000 instructions per second: a cycle of one millisecond.
    let mut pacer = Pacer::new(1000);
    assert!(pacer.admits(0));
    assert_eq!(pacer.after_instruction(250_000), Pace { sleep: 750_000, done: false });
    // The sleep counts as used: the clock may not read less than 1 ms now.
    assert!(!pacer.admits(999_999));
    assert!(pacer.admits(1_000_000));
    assert_eq!(pacer.after_instruction(1_000_100), Pace { sleep: 999_900, done: false });
    assert_eq!(pacer.after_instruction(5_000_000), Pace { sleep: 0, done: false });
}

#[test]
fn pacer_ends_the_tick_after_a_timer_cycle() {
    assert_eq!(TIMER_CYCLE, 1_000_000_000 / 60);
    let mut pacer = Pacer::new(700);
    let cycle = 1_000_000_000 / 700;
    let mut elapsed = 0;
    let mut instructions = 0;
    loop {
        let pace = pacer.after_instruction(elapsed);
        assert_eq!(pace.sleep, cycle);
        elapsed += pace.sleep;
        instructions += 1;
        if pace.done {
            break;
        }
    }
    // Twelve cycles of 1428571 ns are the first to reach 16666666 ns.
    assert_eq!(instructions, 12);

    let mut pacer = Pacer::new(1000);
    assert_eq!(pacer.after_instruction(TIMER_CYCLE - 1), Pace { sleep: 0, done: false });
    // One nanosecond later the next instruction ends: it sleeps out its
    // cycle, and the tick is over.
    assert_eq!(pacer.after_instruction(TIMER_CYCLE), Pace { sleep: 999_999, done: true });

    let mut pacer = Pacer::new(60);
    assert_eq!(pacer.after_instruction(0), Pace { sleep: TIMER_CYCLE, done: true });
}

#[test]
fn pacer_at_a_speed_beyond_the_clock_never_sleeps() {
    let mut pacer = Pacer::new(2_000_000_000);
    assert_eq!(pacer.after_instruction(0), Pace { sleep: 0, done: false });
    assert_eq!(pacer.after_instruction(17_000_000), Pace { sleep: 0, done: true });
}

#[test]
fn unthrottled_pacer_only_watches_the_clock() {
    let mut pacer = Pacer::unthrottled();
    assert_eq!(pacer.after_instruction(0), Pace { sleep: 0, done: false });
    assert_eq!(pacer.after_instruction(16_666_665), Pace { sleep: 0, done: false });
    assert_eq!(pacer.after_instruction(16_666_666), Pace { sleep: 0, done: true });
    assert_eq!(pacer.after_instruction(u64::MAX), Pace { sleep: 0, done: true });
}

#[test]
fn variant_names() {
    assert_eq!(Variant::Chip8.name(), "chip8");
    assert_eq!(Variant::Schip.name(), "schip");
}

#[test]
fn args_defaults() {
    let args = Args::new(String::from("games/pong.ch8"));
    assert_eq!(args.program, "games/pong.ch8");
    assert_eq!(args.variant, Variant::Chip8);
    assert_eq!(args.window_width, 640);
    assert_eq!(args.window_height, 320);
    assert_eq!(args.cpu_speed, 700);
    assert!(args.speed_is_valid());
    let stopped = Args { cpu_speed: 0, ..args };
    assert!(!stopped.speed_is_valid());
}

#[test]
fn program_keeps_its_bytes() {
    let program = Program::new(String::from("pong.ch8"), &[0x12, 0x00, 0xFF]);
    assert_eq!(program.filename, "pong.ch8");
    assert_eq!(program.data, vec![0x12, 0x00, 0xFF]);
    assert!(program.fits());
    assert!(Program::new(String::new(), &[]).fits());
    assert!(Program::new(String::new(), &vec![0u8; 3584]).fits());
    assert!(!Program::new(String::new(), &vec![0u8; 3585]).fits());
}

#[test]
fn colours_of_pixels() {
    assert_eq!(to_colours(&[]), Vec::<u32>::new());
    assert_eq!(to_colours(&[0, 1, 1, 0]), vec![0, 0xffffff, 0xffffff, 0]);
}

#[test]
fn first_keyval_skips_keys_that_stand_for_none() {
    assert_eq!(first_keyval(&[]), None);
    assert_eq!(first_keyval(&[Key::Other, Key::Other]), None);
    assert_eq!(first_keyval(&[Key::Other, Key::V, Key::Key1]), Some(0xF));
    assert_eq!(first_keyval(&[Key::X, Key::Other]), Some(0x0));
}
