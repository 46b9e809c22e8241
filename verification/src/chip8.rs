//! The CHIP-8 machine: registers and memory with a display of 64 by 32
//! pixels.

use crate::args::Variant;
use crate::cpu::{
    after_fetch, cpu_accepts, cpu_step, cpu_underflows, fetch_result, readable, sprite_words,
    step_keeps_well_formed, Cpu, CpuState, HostInput, MAX_PROGRAM_SIZE,
};
use crate::error::InterpreterError;
use crate::instruction::Instruction;
use crate::pacer::{Pacer, PacerState, NANOS_PER_SECOND};
use crate::machine::{
    draw_sprite, first_released_is_lowest, key_in_range, key_inputs, random_byte, read_keys,
    visible_lines,
};
use crate::screen::{
    blank, blank_is_bitmap, blit, blit_keeps_bitmap, blit_twice_restores, collides, is_bitmap,
    shaped, Screen, Sprite,
};
use vstd::prelude::*;

verus! {

/// Columns of the display.
pub const DISPLAY_WIDTH: usize = 64;

/// Rows of the display.
pub const DISPLAY_HEIGHT: usize = 32;

/// A CHIP-8 machine as plain mathematical values.
#[verifier::ext_equal]
pub struct Chip8State {
    pub cpu: CpuState,
    pub screen: Seq<Seq<u8>>,
}

/// Whether `instruction` is outside the CHIP-8 instruction set: the
/// SUPERCHIP additions, the big glyphs among them.
pub open spec fn chip8_rejects(instruction: Instruction) -> bool {
    match instruction {
        Instruction::Hires => true,
        Instruction::Lores => true,
        Instruction::ScrollRight => true,
        Instruction::ScrollLeft => true,
        Instruction::ScrollDown { .. } => true,
        Instruction::SaveFlags { .. } => true,
        Instruction::LoadFlags { .. } => true,
        Instruction::Exit => true,
        Instruction::SetIndexFont { big, .. } => big,
        _ => false,
    }
}

/// The column of the display where a `Draw` puts the left edge of its
/// sprite: the origin wraps round the display.
pub open spec fn chip8_draw_x(s: Chip8State, x: usize) -> int {
    s.cpu.variables[x as int] as int % (DISPLAY_WIDTH as int)
}

/// The row of the display where a `Draw` puts the top of its sprite.
pub open spec fn chip8_draw_y(s: Chip8State, y: usize) -> int {
    s.cpu.variables[y as int] as int % (DISPLAY_HEIGHT as int)
}

/// The sprite that a `Draw` of `sprite_height` rows at row `y0` reads from
/// memory: eight pixels wide, and only as many rows as lie on the display.
pub open spec fn chip8_sprite(s: Chip8State, y0: int, sprite_height: usize) -> Sprite {
    Sprite {
        rows: sprite_words(
            s.cpu,
            visible_lines(sprite_height as int, y0, DISPLAY_HEIGHT as int),
            false,
        ),
        wide: false,
        doubled: false,
    }
}

/// Whether `instruction` can run from `s`: what [`cpu_accepts`] asks, and
/// for a `Draw`, that the rows it reads lie in memory.
pub open spec fn chip8_accepts(s: Chip8State, instruction: Instruction, host: HostInput) -> bool {
    &&& cpu_accepts(s.cpu, instruction, host)
    &&& instruction matches Instruction::Draw { y, sprite_height, .. } ==> readable(
        s.cpu,
        visible_lines(sprite_height as int, chip8_draw_y(s, y), DISPLAY_HEIGHT as int),
    )
}

/// What an instruction of the CHIP-8 set does.
///
/// `ClearScreen` turns every pixel off. `Draw` XORs a sprite into the
/// display and sets `VF` to 1 if that turned a pixel off, to 0 if not.
/// Everything else is [`cpu_step`] with the CHIP-8 conventions.
pub open spec fn chip8_step(s: Chip8State, instruction: Instruction, host: HostInput) -> Chip8State {
    match instruction {
        Instruction::ClearScreen => Chip8State {
            screen: blank(DISPLAY_WIDTH as int, DISPLAY_HEIGHT as int),
            ..s
        },
        Instruction::Draw { x, y, sprite_height } => {
            let x0 = chip8_draw_x(s, x);
            let y0 = chip8_draw_y(s, y);
            let sprite = chip8_sprite(s, y0, sprite_height);
            Chip8State {
                cpu: s.cpu.set_flag(
                    if collides(s.screen, sprite, x0, y0) {
                        1
                    } else {
                        0
                    },
                ),
                screen: blit(s.screen, sprite, x0, y0),
            }
        },
        _ => Chip8State { cpu: cpu_step(s.cpu, instruction, host, Variant::Chip8), ..s },
    }
}

/// How executing `instruction` from `s` ends: with the next state, with
/// `Chip8InvalidInstruction` for what is not in the instruction set, or with
/// `PopOutOfMain` for a `Return` without a return address.
pub open spec fn chip8_outcome(s: Chip8State, instruction: Instruction, host: HostInput) -> Result<
    Chip8State,
    InterpreterError,
> {
    if chip8_rejects(instruction) {
        Err(InterpreterError::Chip8InvalidInstruction { instruction })
    } else if cpu_underflows(s.cpu, instruction) {
        Err(InterpreterError::PopOutOfMain)
    } else {
        Ok(chip8_step(s, instruction, host))
    }
}

/// Whether going from `before` to `after` with result `done` is what
/// executing `instruction` gives: on success the machine is in the next
/// state, on failure it is unchanged.
pub open spec fn chip8_executes(
    before: Chip8State,
    instruction: Instruction,
    host: HostInput,
    after: Chip8State,
    done: Result<(), InterpreterError>,
) -> bool {
    match chip8_outcome(before, instruction, host) {
        Ok(next) => done is Ok && after == next,
        Err(error) => done == Err::<(), InterpreterError>(error) && after == before,
    }
}

/// The machine right after a fetch: the program counter has moved past the
/// opcode, unless there was none to fetch.
pub open spec fn chip8_fetched(s: Chip8State) -> Chip8State {
    Chip8State { cpu: after_fetch(s.cpu), ..s }
}

/// Whether a cycle can run from `s`: the instruction that it fetches, if it
/// fetches one, can run with these keys.
pub open spec fn chip8_ready(s: Chip8State, keys_down: Seq<bool>, keys_released: Seq<bool>) -> bool {
    let fetched = chip8_fetched(s);
    fetch_result(s.cpu) matches Ok(instruction) ==> key_in_range(fetched.cpu, instruction)
        && chip8_accepts(
        fetched,
        instruction,
        key_inputs(fetched.cpu, instruction, keys_down, keys_released, 0),
    )
}

/// Whether going from `before` to `after` with result `done` is one cycle
/// in which `random` is the byte drawn: fetch the instruction at the program
/// counter, then execute it. A failed fetch ends the cycle with its error
/// and nothing executed; otherwise the cycle ends as the execution does.
pub open spec fn chip8_cycles(
    before: Chip8State,
    keys_down: Seq<bool>,
    keys_released: Seq<bool>,
    random: u8,
    after: Chip8State,
    done: Result<(), InterpreterError>,
) -> bool {
    let fetched = chip8_fetched(before);
    match fetch_result(before.cpu) {
        Err(error) => done == Err::<(), InterpreterError>(error) && after == fetched,
        Ok(instruction) => chip8_executes(
            fetched,
            instruction,
            key_inputs(fetched.cpu, instruction, keys_down, keys_released, random),
            after,
            done,
        ),
    }
}

/// Executes `instruction` on registers, memory and a display of 64 by 32
/// pixels, given what the host contributes to it.
pub fn execute_on(
    cpu: &mut Cpu,
    screen: &mut Screen<64, 32>,
    instruction: Instruction,
    host: HostInput,
) -> (done: Result<(), InterpreterError>)
    requires
        chip8_accepts(Chip8State { cpu: old(cpu)@, screen: old(screen)@ }, instruction, host),
    ensures
        chip8_executes(
            Chip8State { cpu: old(cpu)@, screen: old(screen)@ },
            instruction,
            host,
            Chip8State { cpu: final(cpu)@, screen: final(screen)@ },
            done,
        ),
{
    match instruction {
        Instruction::Hires
        | Instruction::Lores
        | Instruction::ScrollRight
        | Instruction::ScrollLeft
        | Instruction::ScrollDown { .. }
        | Instruction::SaveFlags { .. }
        | Instruction::LoadFlags { .. }
        | Instruction::Exit
        | Instruction::SetIndexFont { big: true, .. } => Err(
            InterpreterError::Chip8InvalidInstruction { instruction },
        ),
        Instruction::ClearScreen => {
            screen.clear();
            Ok(())
        },
        Instruction::Draw { x, y, sprite_height } => {
            let x0 = cpu.variable(x) as usize % DISPLAY_WIDTH;
            let y0 = cpu.variable(y) as usize % DISPLAY_HEIGHT;
            let count = if sprite_height <= DISPLAY_HEIGHT - y0 {
                sprite_height
            } else {
                DISPLAY_HEIGHT - y0
            };
            draw_sprite(cpu, screen, x0, y0, count, false, false);
            Ok(())
        },
        _ => cpu.execute(instruction, host, Variant::Chip8),
    }
}

/// Tells whether [`execute_on`] can run `instruction` from these registers
/// and memory.
pub fn accepted_on(cpu: &Cpu, instruction: &Instruction, host: &HostInput) -> (ok: bool)
    ensures
        forall|screen: Seq<Seq<u8>>|
            ok == #[trigger] chip8_accepts(Chip8State { cpu: cpu@, screen }, *instruction, *host),
{
    if !cpu.accepts(instruction, host) {
        return false;
    }
    match *instruction {
        Instruction::Draw { y, sprite_height, .. } => {
            let y0 = cpu.variable(y) as usize % DISPLAY_HEIGHT;
            let count = if sprite_height <= DISPLAY_HEIGHT - y0 {
                sprite_height
            } else {
                DISPLAY_HEIGHT - y0
            };
            cpu.can_read(count)
        },
        _ => true,
    }
}

/// The CHIP-8 machine.
pub struct Chip8 {
    cpu: Cpu,
    screen: Screen<64, 32>,
}

impl View for Chip8 {
    type V = Chip8State;

    closed spec fn view(&self) -> Chip8State {
        Chip8State { cpu: self.cpu@, screen: self.screen@ }
    }
}

impl Chip8 {
    /// A machine about to run `program`: the small glyphs and the program
    /// are in memory, the program counter is at the program's first byte,
    /// and the display is blank.
    pub fn new(program: &[u8]) -> (machine: Chip8)
        requires
            program@.len() <= MAX_PROGRAM_SIZE,
        ensures
            machine@.cpu == CpuState::initial(program@, false),
            machine@.screen == blank(DISPLAY_WIDTH as int, DISPLAY_HEIGHT as int),
    {
        Chip8 { cpu: Cpu::new(program, false), screen: Screen::new() }
    }

    /// The rows of the display, top to bottom, one byte per pixel.
    pub fn display(&self) -> (rows: Vec<&[u8]>)
        ensures
            rows@.len() == DISPLAY_HEIGHT,
            forall|r: int| 0 <= r < DISPLAY_HEIGHT ==> (#[trigger] rows@[r])@ == self@.screen[r],
    {
        self.screen.rows()
    }

    /// Counts both timers down by one; a timer at zero stays there.
    pub fn update_timers(&mut self)
        ensures
            final(self)@ == (Chip8State { cpu: old(self)@.cpu.tick_timers(), ..old(self)@ }),
    {
        self.cpu.update_timers();
    }

    /// Fetches and decodes the instruction at the program counter and
    /// moves past it.
    pub fn next_instruction(&mut self) -> (fetched: Result<Instruction, InterpreterError>)
        ensures
            fetched == fetch_result(old(self)@.cpu),
            fetched matches Ok(instruction) ==> instruction.valid(),
            final(self)@ == (Chip8State { cpu: after_fetch(old(self)@.cpu), ..old(self)@ }),
    {
        self.cpu.next_instruction()
    }

    /// Executes `instruction`, given what the host contributes to it.
    pub fn execute_with(&mut self, instruction: Instruction, host: HostInput) -> (done: Result<
        (),
        InterpreterError,
    >)
        requires
            chip8_accepts(old(self)@, instruction, host),
        ensures
            chip8_executes(old(self)@, instruction, host, final(self)@, done),
    {
        execute_on(&mut self.cpu, &mut self.screen, instruction, host)
    }

    /// Executes `instruction`, reading the keypad from the two key arrays
    /// and drawing a random byte where the instruction asks for one.
    ///
    /// The outcome is that of [`Chip8::execute_with`] for some random byte,
    /// and for any random byte where the instruction draws none.
    pub fn execute_instruction(
        &mut self,
        instruction: Instruction,
        keys_down: &[bool; 16],
        keys_released: &[bool; 16],
    ) -> (done: Result<(), InterpreterError>)
        requires
            key_in_range(old(self)@.cpu, instruction),
            chip8_accepts(
                old(self)@,
                instruction,
                key_inputs(old(self)@.cpu, instruction, keys_down@, keys_released@, 0),
            ),
        ensures
            exists|random: u8|
                chip8_executes(
                    old(self)@,
                    instruction,
                    #[trigger] key_inputs(
                        old(self)@.cpu,
                        instruction,
                        keys_down@,
                        keys_released@,
                        random,
                    ),
                    final(self)@,
                    done,
                ),
            !(instruction is Random) ==> chip8_executes(
                old(self)@,
                instruction,
                key_inputs(old(self)@.cpu, instruction, keys_down@, keys_released@, 0),
                final(self)@,
                done,
            ),
    {
        let random = match instruction {
            Instruction::Random { .. } => random_byte(),
            _ => 0,
        };
        let host = read_keys(&self.cpu, &instruction, keys_down, keys_released, random);
        self.execute_with(instruction, host)
    }

    /// Begins a tick at `speed` instructions per second: counts the timers
    /// down, once, and starts the pacing of the cycles that follow.
    pub fn begin_tick(&mut self, speed: u64) -> (pacer: Pacer)
        requires
            speed > 0,
        ensures
            final(self)@ == (Chip8State { cpu: old(self)@.cpu.tick_timers(), ..old(self)@ }),
            pacer@ == (PacerState {
                cpu_cycle: (NANOS_PER_SECOND / speed) as nat,
                total_elapsed: 0,
            }),
    {
        self.update_timers();
        Pacer::new(speed)
    }

    /// One cycle: fetches the instruction at the program counter and
    /// executes it, reading the keypad from the two key arrays and drawing a
    /// random byte where the instruction asks for one.
    ///
    /// A failed fetch ends the cycle with its error; nothing is executed
    /// then.
    pub fn cycle(&mut self, keys_down: &[bool; 16], keys_released: &[bool; 16]) -> (done: Result<
        (),
        InterpreterError,
    >)
        requires
            chip8_ready(old(self)@, keys_down@, keys_released@),
        ensures
            exists|random: u8| #[trigger]
                chip8_cycles(old(self)@, keys_down@, keys_released@, random, final(self)@, done),
            !(fetch_result(old(self)@.cpu) matches Ok(Instruction::Random { .. }))
                ==> chip8_cycles(old(self)@, keys_down@, keys_released@, 0, final(self)@, done),
    {
        let instruction = match self.next_instruction() {
            Ok(instruction) => instruction,
            Err(error) => {
                assert(chip8_cycles(old(self)@, keys_down@, keys_released@, 0, self@, Err(error)));
                return Err(error);
            },
        };
        let random = match instruction {
            Instruction::Random { .. } => random_byte(),
            _ => 0,
        };
        let host = read_keys(&self.cpu, &instruction, keys_down, keys_released, random);
        let done = self.execute_with(instruction, host);
        assert(chip8_cycles(old(self)@, keys_down@, keys_released@, random, self@, done));
        done
    }

    /// Tells whether [`Chip8::cycle`] can run from here with these keys.
    pub fn is_ready(&self, keys_down: &[bool; 16], keys_released: &[bool; 16]) -> (ok: bool)
        ensures
            ok == chip8_ready(self@, keys_down@, keys_released@),
    {
        let mut ahead = Cpu::blank();
        ahead.copy_from(&self.cpu);
        match ahead.next_instruction() {
            Ok(instruction) => {
                let in_range = match instruction {
                    Instruction::SkipIfKey { key_register } => ahead.variable(key_register) < 16,
                    Instruction::SkipIfNotKey { key_register } => ahead.variable(key_register)
                        < 16,
                    _ => true,
                };
                if !in_range {
                    return false;
                }
                let host = read_keys(&ahead, &instruction, keys_down, keys_released, 0);
                accepted_on(&ahead, &instruction, &host)
            },
            Err(_) => true,
        }
    }

    /// The model of any machine has a display of 64 by 32 pixels, and its
    /// registers and memory are well formed.
    pub proof fn lemma_shaped(&self)
        ensures
            shaped(self@.screen, DISPLAY_WIDTH as int, DISPLAY_HEIGHT as int),
            self@.cpu.wf(),
    {
        self.cpu.lemma_wf();
        self.screen.lemma_shaped();
    }

    /// Registers and memory.
    pub fn cpu(&self) -> (cpu: &Cpu)
        ensures
            cpu@ == self@.cpu,
    {
        &self.cpu
    }

    /// Tells whether [`Chip8::execute_with`] can run `instruction` from
    /// here.
    pub fn accepts_with(&self, instruction: &Instruction, host: &HostInput) -> (ok: bool)
        ensures
            ok == chip8_accepts(self@, *instruction, *host),
    {
        accepted_on(&self.cpu, instruction, host)
    }

    /// Tells whether [`Chip8::execute_instruction`] can run `instruction`
    /// from here with these keys.
    pub fn accepts(
        &self,
        instruction: &Instruction,
        keys_down: &[bool; 16],
        keys_released: &[bool; 16],
    ) -> (ok: bool)
        ensures
            ok == (key_in_range(self@.cpu, *instruction) && chip8_accepts(
                self@,
                *instruction,
                key_inputs(self@.cpu, *instruction, keys_down@, keys_released@, 0),
            )),
    {
        let in_range = match *instruction {
            Instruction::SkipIfKey { key_register } => key_register < 16 && self.cpu.variable(
                key_register,
            ) < 16,
            Instruction::SkipIfNotKey { key_register } => key_register < 16 && self.cpu.variable(
                key_register,
            ) < 16,
            _ => true,
        };
        if !in_range {
            return false;
        }
        let host = read_keys(&self.cpu, instruction, keys_down, keys_released, 0);
        self.accepts_with(instruction, &host)
    }
}

/// `ClearScreen` is never refused and turns every pixel off, whatever the
/// display showed; registers and memory stay as they are.
pub proof fn clear_screen_blanks_the_display(s: Chip8State, host: HostInput)
    ensures
        chip8_outcome(s, Instruction::ClearScreen, host) == Ok::<Chip8State, InterpreterError>(
            Chip8State { screen: blank(DISPLAY_WIDTH as int, DISPLAY_HEIGHT as int), ..s },
        ),
        forall|r: int, c: int|
            0 <= r < DISPLAY_HEIGHT && 0 <= c < DISPLAY_WIDTH ==> chip8_step(
                s,
                Instruction::ClearScreen,
                host,
            ).screen[r][c] == 0,
{
}

/// A wait for a key that finds none released leaves the machine as it was
/// before the instruction was fetched, so that the same instruction is
/// fetched again.
pub proof fn get_key_waits(
    s: Chip8State,
    dest: usize,
    keys_down: Seq<bool>,
    keys_released: Seq<bool>,
    random: u8,
)
    requires
        s.cpu.can_fetch(),
        keys_released.len() == 16,
        forall|k: int| 0 <= k < 16 ==> !keys_released[k],
    ensures
        ({
            let instruction = Instruction::GetKey { dest };
            let fetched = Chip8State { cpu: after_fetch(s.cpu), ..s };
            let host = key_inputs(fetched.cpu, instruction, keys_down, keys_released, random);
            chip8_outcome(fetched, instruction, host) == Ok::<Chip8State, InterpreterError>(s)
        }),
{
    first_released_is_lowest(keys_released);
}

/// A wait for a key that finds one released stores the lowest such key in
/// the register and changes nothing else.
pub proof fn get_key_takes_the_lowest_released(
    s: Chip8State,
    dest: usize,
    keys_down: Seq<bool>,
    keys_released: Seq<bool>,
    random: u8,
    key: u8,
)
    requires
        keys_released.len() == 16,
        key < 16,
        keys_released[key as int],
        forall|k: int| 0 <= k < key ==> !keys_released[k],
    ensures
        ({
            let instruction = Instruction::GetKey { dest };
            let host = key_inputs(s.cpu, instruction, keys_down, keys_released, random);
            chip8_outcome(s, instruction, host) == Ok::<Chip8State, InterpreterError>(
                Chip8State { cpu: s.cpu.set_var(dest as int, key), ..s },
            )
        }),
{
    first_released_is_lowest(keys_released);
}

/// The display stays a grid of 64 by 32 pixels that are 0 or 1, and
/// registers and memory stay well formed, whatever is executed.
pub proof fn chip8_step_keeps_the_model(s: Chip8State, instruction: Instruction, host: HostInput)
    requires
        s.cpu.wf(),
        shaped(s.screen, DISPLAY_WIDTH as int, DISPLAY_HEIGHT as int),
        is_bitmap(s.screen),
        chip8_accepts(s, instruction, host),
    ensures
        chip8_step(s, instruction, host).cpu.wf(),
        shaped(chip8_step(s, instruction, host).screen, DISPLAY_WIDTH as int, DISPLAY_HEIGHT as int),
        is_bitmap(chip8_step(s, instruction, host).screen),
{
    step_keeps_well_formed(s.cpu, instruction, host, Variant::Chip8);
    blank_is_bitmap(DISPLAY_WIDTH as int, DISPLAY_HEIGHT as int);
    match instruction {
        Instruction::Draw { x, y, sprite_height } => {
            let x0 = chip8_draw_x(s, x);
            let y0 = chip8_draw_y(s, y);
            blit_keeps_bitmap(s.screen, chip8_sprite(s, y0, sprite_height), x0, y0);
        },
        _ => {},
    }
}

/// Drawing a sprite a second time at the same place takes it off the
/// display again, provided that the coordinates do not come from the flag
/// register, which the first drawing overwrites.
pub proof fn drawing_twice_erases(s: Chip8State, x: usize, y: usize, sprite_height: usize, host: HostInput)
    requires
        x < 0xF,
        y < 0xF,
        s.cpu.wf(),
    ensures
        ({
            let draw = Instruction::Draw { x, y, sprite_height };
            let once = chip8_step(s, draw, host);
            let twice = chip8_step(once, draw, host);
            twice.screen == s.screen
        }),
{
    let draw = Instruction::Draw { x, y, sprite_height };
    let once = chip8_step(s, draw, host);
    let x0 = chip8_draw_x(s, x);
    let y0 = chip8_draw_y(s, y);
    assert(once.cpu.variables[x as int] == s.cpu.variables[x as int]);
    assert(once.cpu.variables[y as int] == s.cpu.variables[y as int]);
    assert(chip8_draw_x(once, x) == x0);
    assert(chip8_draw_y(once, y) == y0);
    let sprite = chip8_sprite(s, y0, sprite_height);
    assert(chip8_sprite(once, y0, sprite_height).rows =~= sprite.rows);
    blit_twice_restores(s.screen, sprite, x0, y0);
}

/// Only `ClearScreen` and `Draw` change the display.
pub proof fn display_changes_only_by_drawing(s: Chip8State, instruction: Instruction, host: HostInput)
    requires
        !(instruction is ClearScreen),
        !(instruction is Draw),
    ensures
        chip8_step(s, instruction, host).screen == s.screen,
{
}

/// Executing an instruction fails in two ways only: for an instruction
/// that CHIP-8 does not have, and for a `Return` without a return address.
pub proof fn chip8_fails_in_two_ways(s: Chip8State, instruction: Instruction, host: HostInput)
    ensures
        match chip8_outcome(s, instruction, host) {
            Ok(_) => !chip8_rejects(instruction),
            Err(error) => error == (InterpreterError::Chip8InvalidInstruction { instruction })
                && chip8_rejects(instruction) || error == InterpreterError::PopOutOfMain
                && instruction is Return,
        },
{
}

} // verus!
