//! The SUPERCHIP machine: the CHIP-8 registers and memory with a display
//! of 128 by 64 pixels, a low-resolution mode, scrolling and an exit.

use crate::args::Variant;
use crate::cpu::{
    after_fetch, cpu_accepts, cpu_step, cpu_underflows, fetch_result, readable, sprite_words,
    step_keeps_well_formed, Cpu, CpuState, HostInput, MAX_PROGRAM_SIZE,
};
use crate::error::InterpreterError;
use crate::instruction::Instruction;
use crate::pacer::{Pacer, PacerState, NANOS_PER_SECOND};
use crate::machine::{
    draw_sprite, first_released_is_lowest, key_in_range, key_inputs, random_byte, read_keys,
    visible_lines,
};
use crate::screen::{
    blank, blank_is_bitmap, blit, blit_keeps_bitmap, collides, is_bitmap, scrolled_down,
    scrolled_left, scrolled_right, scrolls_keep_bitmap, shaped, Screen, Sprite,
};
use vstd::prelude::*;

verus! {

/// Columns of the display.
pub const DISPLAY_WIDTH: usize = 128;

/// Rows of the display.
pub const DISPLAY_HEIGHT: usize = 64;

/// Columns that a horizontal scroll moves the picture in high resolution.
pub const SCROLL_COLUMNS: usize = 4;

/// A SUPERCHIP machine as plain mathematical values.
#[verifier::ext_equal]
pub struct SuperchipState {
    pub cpu: CpuState,
    pub screen: Seq<Seq<u8>>,
    /// High resolution: one pixel of a sprite is one pixel of the display.
    /// In low resolution it is a block of two by two.
    pub hires: bool,
    /// Cleared by `Exit`.
    pub running: bool,
}

/// By how much a low-resolution machine stretches what it draws and
/// scrolls: 1 in high resolution, 2 in low.
pub open spec fn scale(hires: bool) -> int {
    if hires {
        1
    } else {
        2
    }
}

/// The column of the display where a `Draw` puts the left edge of its
/// sprite: the origin, stretched in low resolution, wraps round the display.
pub open spec fn superchip_draw_x(s: SuperchipState, x: usize) -> int {
    (s.cpu.variables[x as int] as int * scale(s.hires)) % (DISPLAY_WIDTH as int)
}

/// The row of the display where a `Draw` puts the top of its sprite.
pub open spec fn superchip_draw_y(s: SuperchipState, y: usize) -> int {
    (s.cpu.variables[y as int] as int * scale(s.hires)) % (DISPLAY_HEIGHT as int)
}

/// Whether a `Draw` of `sprite_height` rows draws the large sprite of 16 by
/// 16 pixels: in high resolution, a height of zero asks for it.
pub open spec fn draws_large(s: SuperchipState, sprite_height: usize) -> bool {
    s.hires && sprite_height == 0
}

/// How many rows of its sprite a `Draw` at row `y0` reads from memory: as
/// many as lie on the display.
pub open spec fn superchip_sprite_rows(s: SuperchipState, y0: int, sprite_height: usize) -> int {
    if draws_large(s, sprite_height) {
        visible_lines(16, y0, DISPLAY_HEIGHT as int)
    } else {
        visible_lines(sprite_height as int * scale(s.hires), y0, DISPLAY_HEIGHT as int) / scale(
            s.hires,
        )
    }
}

/// How many bytes of memory a `Draw` at row `y0` reads.
pub open spec fn superchip_sprite_bytes(s: SuperchipState, y0: int, sprite_height: usize) -> int {
    if draws_large(s, sprite_height) {
        2 * superchip_sprite_rows(s, y0, sprite_height)
    } else {
        superchip_sprite_rows(s, y0, sprite_height)
    }
}

/// The sprite that a `Draw` of `sprite_height` rows at row `y0` reads from
/// memory.
pub open spec fn superchip_sprite(s: SuperchipState, y0: int, sprite_height: usize) -> Sprite {
    let wide = draws_large(s, sprite_height);
    Sprite {
        rows: sprite_words(s.cpu, superchip_sprite_rows(s, y0, sprite_height), wide),
        wide,
        doubled: !s.hires,
    }
}

/// The picture row after row: pixel `i` is the one at row `i / 128`,
/// column `i % 128`.
pub open spec fn flattened(screen: Seq<Seq<u8>>) -> Seq<u8> {
    Seq::new(
        (DISPLAY_WIDTH * DISPLAY_HEIGHT) as nat,
        |i: int| screen[i / DISPLAY_WIDTH as int][i % DISPLAY_WIDTH as int],
    )
}

/// Whether `instruction` can run from `s`: what [`cpu_accepts`] asks, and
/// for a `Draw`, that the rows it reads lie in memory.
pub open spec fn superchip_accepts(
    s: SuperchipState,
    instruction: Instruction,
    host: HostInput,
) -> bool {
    &&& cpu_accepts(s.cpu, instruction, host)
    &&& instruction matches Instruction::Draw { y, sprite_height, .. } ==> readable(
        s.cpu,
        superchip_sprite_bytes(s, superchip_draw_y(s, y), sprite_height),
    )
}

/// What an instruction does on SUPERCHIP.
///
/// `Hires` and `Lores` switch the resolution and leave the picture as it
/// is. The scrolls move the picture by 4 columns, or by `amount` rows, twice
/// as far in low resolution, and never wrap. `Exit` stops the machine.
/// `SaveFlags` and `LoadFlags` do nothing. Everything that does not concern
/// the display is [`cpu_step`] with the SUPERCHIP conventions.
pub open spec fn superchip_step(
    s: SuperchipState,
    instruction: Instruction,
    host: HostInput,
) -> SuperchipState {
    match instruction {
        Instruction::ClearScreen => SuperchipState {
            screen: blank(DISPLAY_WIDTH as int, DISPLAY_HEIGHT as int),
            ..s
        },
        Instruction::Exit => SuperchipState { running: false, ..s },
        Instruction::Hires => SuperchipState { hires: true, ..s },
        Instruction::Lores => SuperchipState { hires: false, ..s },
        Instruction::ScrollRight => SuperchipState {
            screen: scrolled_right(s.screen, SCROLL_COLUMNS * scale(s.hires)),
            ..s
        },
        Instruction::ScrollLeft => SuperchipState {
            screen: scrolled_left(s.screen, SCROLL_COLUMNS * scale(s.hires)),
            ..s
        },
        Instruction::ScrollDown { amount } => SuperchipState {
            screen: scrolled_down(s.screen, amount * scale(s.hires)),
            ..s
        },
        Instruction::Draw { x, y, sprite_height } => {
            let x0 = superchip_draw_x(s, x);
            let y0 = superchip_draw_y(s, y);
            let sprite = superchip_sprite(s, y0, sprite_height);
            SuperchipState {
                cpu: s.cpu.set_flag(
                    if collides(s.screen, sprite, x0, y0) {
                        1
                    } else {
                        0
                    },
                ),
                screen: blit(s.screen, sprite, x0, y0),
                ..s
            }
        },
        _ => SuperchipState { cpu: cpu_step(s.cpu, instruction, host, Variant::Schip), ..s },
    }
}

/// How executing `instruction` from `s` ends: with the next state, or with
/// `PopOutOfMain` for a `Return` without a return address.
pub open spec fn superchip_outcome(
    s: SuperchipState,
    instruction: Instruction,
    host: HostInput,
) -> Result<SuperchipState, InterpreterError> {
    if cpu_underflows(s.cpu, instruction) {
        Err(InterpreterError::PopOutOfMain)
    } else {
        Ok(superchip_step(s, instruction, host))
    }
}

/// Whether going from `before` to `after` with result `done` is what
/// executing `instruction` gives: on success the machine is in the next
/// state, on failure it is unchanged.
pub open spec fn superchip_executes(
    before: SuperchipState,
    instruction: Instruction,
    host: HostInput,
    after: SuperchipState,
    done: Result<(), InterpreterError>,
) -> bool {
    match superchip_outcome(before, instruction, host) {
        Ok(next) => done is Ok && after == next,
        Err(error) => done == Err::<(), InterpreterError>(error) && after == before,
    }
}

/// The machine right after a fetch: the program counter has moved past the
/// opcode, unless there was none to fetch.
pub open spec fn superchip_fetched(s: SuperchipState) -> SuperchipState {
    SuperchipState { cpu: after_fetch(s.cpu), ..s }
}

/// Whether a cycle can run from `s`: the instruction that it fetches, if it
/// fetches one, can run with these keys.
pub open spec fn superchip_ready(
    s: SuperchipState,
    keys_down: Seq<bool>,
    keys_released: Seq<bool>,
) -> bool {
    let fetched = superchip_fetched(s);
    fetch_result(s.cpu) matches Ok(instruction) ==> key_in_range(fetched.cpu, instruction)
        && superchip_accepts(
        fetched,
        instruction,
        key_inputs(fetched.cpu, instruction, keys_down, keys_released, 0),
    )
}

/// Whether a cycle can run from `s` with `host` as what the host
/// contributes: the instruction that it fetches, if it fetches one, can run.
pub open spec fn superchip_ready_with(s: SuperchipState, host: HostInput) -> bool {
    let fetched = superchip_fetched(s);
    fetch_result(s.cpu) matches Ok(instruction) ==> key_in_range(fetched.cpu, instruction)
        && superchip_accepts(fetched, instruction, host)
}

/// Whether going from `before` to `after` with result `done` is one cycle
/// in which `random` is the byte drawn: fetch the instruction at the program
/// counter, then execute it. A failed fetch ends the cycle with its error
/// and nothing executed; otherwise the cycle ends as the execution does.
pub open spec fn superchip_cycles(
    before: SuperchipState,
    keys_down: Seq<bool>,
    keys_released: Seq<bool>,
    random: u8,
    after: SuperchipState,
    done: Result<(), InterpreterError>,
) -> bool {
    let fetched = superchip_fetched(before);
    match fetch_result(before.cpu) {
        Err(error) => done == Err::<(), InterpreterError>(error) && after == fetched,
        Ok(instruction) => superchip_executes(
            fetched,
            instruction,
            key_inputs(fetched.cpu, instruction, keys_down, keys_released, random),
            after,
            done,
        ),
    }
}

/// Tells whether `instruction` can run on these registers and memory in
/// this resolution.
pub fn accepted_on(cpu: &Cpu, hires: bool, instruction: &Instruction, host: &HostInput) -> (ok:
    bool)
    ensures
        forall|screen: Seq<Seq<u8>>, running: bool|
            ok == #[trigger] superchip_accepts(
                SuperchipState { cpu: cpu@, screen, hires, running },
                *instruction,
                *host,
            ),
{
    if !cpu.accepts(instruction, host) {
        return false;
    }
    match *instruction {
        Instruction::Draw { y, sprite_height, .. } => {
            let factor: usize = if hires {
                1
            } else {
                2
            };
            let y0 = (cpu.variable(y) as usize * factor) % DISPLAY_HEIGHT;
            let large = hires && sprite_height == 0;
            let lines = if large {
                16
            } else {
                sprite_height * factor
            };
            let visible = if lines <= DISPLAY_HEIGHT - y0 {
                lines
            } else {
                DISPLAY_HEIGHT - y0
            };
            cpu.can_read(
                if large {
                    2 * visible
                } else {
                    visible / factor
                },
            )
        },
        _ => true,
    }
}

/// The SUPERCHIP machine.
pub struct Superchip {
    cpu: Cpu,
    screen: Screen<128, 64>,
    hires: bool,
    running: bool,
}

impl View for Superchip {
    type V = SuperchipState;

    closed spec fn view(&self) -> SuperchipState {
        SuperchipState {
            cpu: self.cpu@,
            screen: self.screen@,
            hires: self.hires,
            running: self.running,
        }
    }
}

impl Superchip {
    /// A machine about to run `program`: both sets of glyphs and the
    /// program are in memory, the program counter is at the program's first
    /// byte, the display is blank and in low resolution, and the machine is
    /// running.
    pub fn new(program: &[u8]) -> (machine: Superchip)
        requires
            program@.len() <= MAX_PROGRAM_SIZE,
        ensures
            machine@ == (SuperchipState {
                cpu: CpuState::initial(program@, true),
                screen: blank(DISPLAY_WIDTH as int, DISPLAY_HEIGHT as int),
                hires: false,
                running: true,
            }),
    {
        Superchip {
            cpu: Cpu::new(program, true),
            screen: Screen::new(),
            hires: false,
            running: true,
        }
    }

    /// The rows of the display, top to bottom, one byte per pixel.
    pub fn display(&self) -> (rows: Vec<&[u8]>)
        ensures
            rows@.len() == DISPLAY_HEIGHT,
            forall|r: int| 0 <= r < DISPLAY_HEIGHT ==> (#[trigger] rows@[r])@ == self@.screen[r],
    {
        self.screen.rows()
    }

    /// The display as one buffer, row after row, one byte per pixel.
    pub fn frame(&self) -> (buffer: Vec<u8>)
        ensures
            buffer@ == flattened(self@.screen),
    {
        let mut buffer: Vec<u8> = Vec::new();
        let mut r: usize = 0;
        while r < DISPLAY_HEIGHT
            invariant
                r <= DISPLAY_HEIGHT,
                buffer@.len() == r * DISPLAY_WIDTH,
                forall|i: int| 0 <= i < r * DISPLAY_WIDTH ==> buffer@[i] == flattened(self@.screen)[i],
            decreases DISPLAY_HEIGHT - r,
        {
            let mut c: usize = 0;
            while c < DISPLAY_WIDTH
                invariant
                    r < DISPLAY_HEIGHT,
                    c <= DISPLAY_WIDTH,
                    buffer@.len() == r * DISPLAY_WIDTH + c,
                    forall|i: int|
                        0 <= i < r * DISPLAY_WIDTH + c ==> buffer@[i] == flattened(
                            self@.screen,
                        )[i],
                decreases DISPLAY_WIDTH - c,
            {
                buffer.push(self.screen.pixel(r, c));
                c += 1;
            }
            r += 1;
        }
        assert(buffer@ =~= flattened(self@.screen));
        buffer
    }

    /// Counts both timers down by one; a timer at zero stays there.
    pub fn update_timers(&mut self)
        ensures
            final(self)@ == (SuperchipState { cpu: old(self)@.cpu.tick_timers(), ..old(self)@ }),
    {
        self.cpu.update_timers();
    }

    /// Fetches and decodes the instruction at the program counter and
    /// moves past it.
    pub fn next_instruction(&mut self) -> (fetched: Result<Instruction, InterpreterError>)
        ensures
            fetched == fetch_result(old(self)@.cpu),
            fetched matches Ok(instruction) ==> instruction.valid(),
            final(self)@ == (SuperchipState { cpu: after_fetch(old(self)@.cpu), ..old(self)@ }),
    {
        self.cpu.next_instruction()
    }

    /// Executes `instruction`, given what the host contributes to it.
    pub fn execute_with(&mut self, instruction: Instruction, host: HostInput) -> (done: Result<
        (),
        InterpreterError,
    >)
        requires
            superchip_accepts(old(self)@, instruction, host),
        ensures
            superchip_executes(old(self)@, instruction, host, final(self)@, done),
    {
        let factor: usize = if self.hires {
            1
        } else {
            2
        };
        match instruction {
            Instruction::ClearScreen => {
                self.screen.clear();
                Ok(())
            },
            Instruction::Exit => {
                self.running = false;
                Ok(())
            },
            Instruction::Hires => {
                self.hires = true;
                Ok(())
            },
            Instruction::Lores => {
                self.hires = false;
                Ok(())
            },
            Instruction::ScrollRight => {
                self.screen.scroll_right(SCROLL_COLUMNS * factor);
                Ok(())
            },
            Instruction::ScrollLeft => {
                self.screen.scroll_left(SCROLL_COLUMNS * factor);
                Ok(())
            },
            Instruction::ScrollDown { amount } => {
                self.screen.scroll_down(amount * factor);
                Ok(())
            },
            Instruction::Draw { x, y, sprite_height } => {
                let x0 = (self.cpu.variable(x) as usize * factor) % DISPLAY_WIDTH;
                let y0 = (self.cpu.variable(y) as usize * factor) % DISPLAY_HEIGHT;
                let large = self.hires && sprite_height == 0;
                let lines = if large {
                    16
                } else {
                    sprite_height * factor
                };
                let visible = if lines <= DISPLAY_HEIGHT - y0 {
                    lines
                } else {
                    DISPLAY_HEIGHT - y0
                };
                let count = if large {
                    visible
                } else {
                    visible / factor
                };
                draw_sprite(&mut self.cpu, &mut self.screen, x0, y0, count, large, !self.hires);
                Ok(())
            },
            _ => self.cpu.execute(instruction, host, Variant::Schip),
        }
    }

    /// Executes `instruction`, reading the keypad from the two key arrays
    /// and drawing a random byte where the instruction asks for one.
    ///
    /// The outcome is that of [`Superchip::execute_with`] for some random
    /// byte, and for any random byte where the instruction draws none.
    pub fn execute_instruction(
        &mut self,
        instruction: Instruction,
        keys_down: &[bool; 16],
        keys_released: &[bool; 16],
    ) -> (done: Result<(), InterpreterError>)
        requires
            key_in_range(old(self)@.cpu, instruction),
            superchip_accepts(
                old(self)@,
                instruction,
                key_inputs(old(self)@.cpu, instruction, keys_down@, keys_released@, 0),
            ),
        ensures
            exists|random: u8|
                superchip_executes(
                    old(self)@,
                    instruction,
                    #[trigger] key_inputs(
                        old(self)@.cpu,
                        instruction,
                        keys_down@,
                        keys_released@,
                        random,
                    ),
                    final(self)@,
                    done,
                ),
            !(instruction is Random) ==> superchip_executes(
                old(self)@,
                instruction,
                key_inputs(old(self)@.cpu, instruction, keys_down@, keys_released@, 0),
                final(self)@,
                done,
            ),
    {
        let random = match instruction {
            Instruction::Random { .. } => random_byte(),
            _ => 0,
        };
        let host = read_keys(&self.cpu, &instruction, keys_down, keys_released, random);
        self.execute_with(instruction, host)
    }

    /// Whether the machine has not executed an `Exit`.
    pub fn is_running(&self) -> (running: bool)
        ensures
            running == self@.running,
    {
        self.running
    }

    /// Whether the display is in high resolution.
    pub fn is_hires(&self) -> (hires: bool)
        ensures
            hires == self@.hires,
    {
        self.hires
    }

    /// Begins a tick at `speed` instructions per second: counts the timers
    /// down, once, and starts the pacing of the cycles that follow.
    pub fn begin_tick(&mut self, speed: u64) -> (pacer: Pacer)
        requires
            speed > 0,
        ensures
            final(self)@ == (SuperchipState { cpu: old(self)@.cpu.tick_timers(), ..old(self)@ }),
            pacer@ == (PacerState {
                cpu_cycle: (NANOS_PER_SECOND / speed) as nat,
                total_elapsed: 0,
            }),
    {
        self.update_timers();
        Pacer::new(speed)
    }

    /// One cycle: fetches the instruction at the program counter and
    /// executes it, reading the keypad from the two key arrays and drawing a
    /// random byte where the instruction asks for one.
    ///
    /// A failed fetch ends the cycle with its error; nothing is executed
    /// then.
    pub fn cycle(&mut self, keys_down: &[bool; 16], keys_released: &[bool; 16]) -> (done: Result<
        (),
        InterpreterError,
    >)
        requires
            superchip_ready(old(self)@, keys_down@, keys_released@),
        ensures
            exists|random: u8| #[trigger]
                superchip_cycles(
                    old(self)@,
                    keys_down@,
                    keys_released@,
                    random,
                    final(self)@,
                    done,
                ),
            !(fetch_result(old(self)@.cpu) matches Ok(Instruction::Random { .. }))
                ==> superchip_cycles(
                old(self)@,
                keys_down@,
                keys_released@,
                0,
                final(self)@,
                done,
            ),
    {
        let instruction = match self.next_instruction() {
            Ok(instruction) => instruction,
            Err(error) => {
                assert(superchip_cycles(
                    old(self)@,
                    keys_down@,
                    keys_released@,
                    0,
                    self@,
                    Err(error),
                ));
                return Err(error);
            },
        };
        let random = match instruction {
            Instruction::Random { .. } => random_byte(),
            _ => 0,
        };
        let host = read_keys(&self.cpu, &instruction, keys_down, keys_released, random);
        let done = self.execute_with(instruction, host);
        assert(superchip_cycles(old(self)@, keys_down@, keys_released@, random, self@, done));
        done
    }

    /// Tells whether [`Superchip::cycle`] can run from here with these
    /// keys.
    pub fn is_ready(&self, keys_down: &[bool; 16], keys_released: &[bool; 16]) -> (ok: bool)
        ensures
            ok == superchip_ready(self@, keys_down@, keys_released@),
    {
        let mut ahead = Cpu::blank();
        ahead.copy_from(&self.cpu);
        match ahead.next_instruction() {
            Ok(instruction) => {
                let in_range = match instruction {
                    Instruction::SkipIfKey { key_register } => ahead.variable(key_register) < 16,
                    Instruction::SkipIfNotKey { key_register } => ahead.variable(key_register)
                        < 16,
                    _ => true,
                };
                if !in_range {
                    return false;
                }
                let host = read_keys(&ahead, &instruction, keys_down, keys_released, 0);
                accepted_on(&ahead, self.hires, &instruction, &host)
            },
            Err(_) => true,
        }
    }

    /// Tells whether the instruction that a fetch from here gives, if it
    /// gives one, can run with `host` as what the host contributes.
    pub fn is_ready_with(&self, host: &HostInput) -> (ok: bool)
        ensures
            ok == superchip_ready_with(self@, *host),
    {
        let mut ahead = Cpu::blank();
        ahead.copy_from(&self.cpu);
        match ahead.next_instruction() {
            Ok(instruction) => {
                let in_range = match instruction {
                    Instruction::SkipIfKey { key_register } => ahead.variable(key_register) < 16,
                    Instruction::SkipIfNotKey { key_register } => ahead.variable(key_register)
                        < 16,
                    _ => true,
                };
                in_range && accepted_on(&ahead, self.hires, &instruction, host)
            },
            Err(_) => true,
        }
    }

    /// The model of any machine has a display of 128 by 64 pixels, and its
    /// registers and memory are well formed.
    pub proof fn lemma_shaped(&self)
        ensures
            shaped(self@.screen, DISPLAY_WIDTH as int, DISPLAY_HEIGHT as int),
            self@.cpu.wf(),
    {
        self.cpu.lemma_wf();
        self.screen.lemma_shaped();
    }

    /// Registers and memory.
    pub fn cpu(&self) -> (cpu: &Cpu)
        ensures
            cpu@ == self@.cpu,
    {
        &self.cpu
    }

    /// Tells whether [`Superchip::execute_with`] can run `instruction` from
    /// here.
    pub fn accepts_with(&self, instruction: &Instruction, host: &HostInput) -> (ok: bool)
        ensures
            ok == superchip_accepts(self@, *instruction, *host),
    {
        accepted_on(&self.cpu, self.hires, instruction, host)
    }

    /// Tells whether [`Superchip::execute_instruction`] can run `instruction`
    /// from here with these keys.
    pub fn accepts(
        &self,
        instruction: &Instruction,
        keys_down: &[bool; 16],
        keys_released: &[bool; 16],
    ) -> (ok: bool)
        ensures
            ok == (key_in_range(self@.cpu, *instruction) && superchip_accepts(
                self@,
                *instruction,
                key_inputs(self@.cpu, *instruction, keys_down@, keys_released@, 0),
            )),
    {
        let in_range = match *instruction {
            Instruction::SkipIfKey { key_register } => key_register < 16 && self.cpu.variable(
                key_register,
            ) < 16,
            Instruction::SkipIfNotKey { key_register } => key_register < 16 && self.cpu.variable(
                key_register,
            ) < 16,
            _ => true,
        };
        if !in_range {
            return false;
        }
        let host = read_keys(&self.cpu, instruction, keys_down, keys_released, 0);
        self.accepts_with(instruction, &host)
    }
}

/// `ClearScreen` always succeeds and turns every pixel off, whatever the
/// display showed; all else stays as it is.
pub proof fn clear_screen_blanks_the_display(s: SuperchipState, host: HostInput)
    ensures
        superchip_outcome(s, Instruction::ClearScreen, host) == Ok::<
            SuperchipState,
            InterpreterError,
        >(SuperchipState { screen: blank(DISPLAY_WIDTH as int, DISPLAY_HEIGHT as int), ..s }),
        forall|r: int, c: int|
            0 <= r < DISPLAY_HEIGHT && 0 <= c < DISPLAY_WIDTH ==> superchip_step(
                s,
                Instruction::ClearScreen,
                host,
            ).screen[r][c] == 0,
{
}

/// `ScrollDown` by `amount` moves every row down by `amount` rows in high
/// resolution and by twice as many in low resolution. The rows that open up
/// at the top are off, nothing wraps round, and all but the display stays as
/// it is.
pub proof fn scroll_down_moves_rows(s: SuperchipState, amount: usize, host: HostInput)
    requires
        shaped(s.screen, DISPLAY_WIDTH as int, DISPLAY_HEIGHT as int),
    ensures
        ({
            let after = superchip_step(s, Instruction::ScrollDown { amount }, host);
            let rows = if s.hires {
                amount as int
            } else {
                2 * amount
            };
            &&& after == SuperchipState { screen: after.screen, ..s }
            &&& shaped(after.screen, DISPLAY_WIDTH as int, DISPLAY_HEIGHT as int)
            &&& forall|r: int, c: int|
                0 <= r < rows && r < DISPLAY_HEIGHT && 0 <= c < DISPLAY_WIDTH
                    ==> after.screen[r][c] == 0
            &&& forall|r: int|
                rows <= r < DISPLAY_HEIGHT ==> #[trigger] after.screen[r] == s.screen[r - rows]
        }),
{
    let after = superchip_step(s, Instruction::ScrollDown { amount }, host);
    let rows = if s.hires {
        amount as int
    } else {
        2 * amount
    };
    assert(amount * scale(s.hires) == rows);
    assert forall|r: int| rows <= r < DISPLAY_HEIGHT implies #[trigger] after.screen[r]
        == s.screen[r - rows] by {
        assert(s.screen[r - rows].len() == DISPLAY_WIDTH);
        assert(s.screen[r].len() == DISPLAY_WIDTH);
        assert(after.screen[r] =~= s.screen[r - rows]);
    }
}

/// The horizontal scrolls move every row by 4 columns in high resolution
/// and by 8 in low resolution; the columns that open up are off and nothing
/// wraps round.
pub proof fn horizontal_scrolls_move_columns(s: SuperchipState, host: HostInput)
    requires
        shaped(s.screen, DISPLAY_WIDTH as int, DISPLAY_HEIGHT as int),
    ensures
        ({
            let right = superchip_step(s, Instruction::ScrollRight, host).screen;
            let left = superchip_step(s, Instruction::ScrollLeft, host).screen;
            let columns: int = if s.hires {
                4
            } else {
                8
            };
            forall|r: int, c: int|
                0 <= r < DISPLAY_HEIGHT && 0 <= c < DISPLAY_WIDTH ==> {
                    &&& #[trigger] right[r][c] == if c >= columns {
                        s.screen[r][c - columns]
                    } else {
                        0
                    }
                    &&& #[trigger] left[r][c] == if c + columns < DISPLAY_WIDTH {
                        s.screen[r][c + columns]
                    } else {
                        0
                    }
                }
        }),
{
    assert(SCROLL_COLUMNS * scale(s.hires) == if s.hires {
        4int
    } else {
        8int
    });
}

/// `Hires` and `Lores` switch the resolution and nothing else: the picture
/// is neither cleared nor rescaled.
pub proof fn switching_resolution_keeps_the_picture(s: SuperchipState, host: HostInput)
    ensures
        superchip_step(s, Instruction::Hires, host) == (SuperchipState { hires: true, ..s }),
        superchip_step(s, Instruction::Lores, host) == (SuperchipState { hires: false, ..s }),
{
}

/// `Exit` stops the machine and changes nothing else; nothing but `Exit`
/// stops it, and nothing starts it again.
pub proof fn only_exit_stops(s: SuperchipState, instruction: Instruction, host: HostInput)
    ensures
        superchip_step(s, Instruction::Exit, host) == (SuperchipState { running: false, ..s }),
        superchip_step(s, instruction, host).running == (s.running && !(instruction is Exit)),
{
}

/// `SaveFlags` and `LoadFlags` do nothing.
pub proof fn flag_storage_does_nothing(s: SuperchipState, x: usize, host: HostInput)
    ensures
        superchip_step(s, Instruction::SaveFlags { x }, host) == s,
        superchip_step(s, Instruction::LoadFlags { x }, host) == s,
{
}

/// A wait for a key that finds none released leaves the machine as it was
/// before the instruction was fetched, so that the same instruction is
/// fetched again.
pub proof fn get_key_waits(
    s: SuperchipState,
    dest: usize,
    keys_down: Seq<bool>,
    keys_released: Seq<bool>,
    random: u8,
)
    requires
        s.cpu.can_fetch(),
        keys_released.len() == 16,
        forall|k: int| 0 <= k < 16 ==> !keys_released[k],
    ensures
        ({
            let instruction = Instruction::GetKey { dest };
            let fetched = SuperchipState { cpu: after_fetch(s.cpu), ..s };
            let host = key_inputs(fetched.cpu, instruction, keys_down, keys_released, random);
            superchip_outcome(fetched, instruction, host) == Ok::<SuperchipState, InterpreterError>(
                s,
            )
        }),
{
    first_released_is_lowest(keys_released);
}

/// A wait for a key that finds one released stores the lowest such key in
/// the register and changes nothing else.
pub proof fn get_key_takes_the_lowest_released(
    s: SuperchipState,
    dest: usize,
    keys_down: Seq<bool>,
    keys_released: Seq<bool>,
    random: u8,
    key: u8,
)
    requires
        keys_released.len() == 16,
        key < 16,
        keys_released[key as int],
        forall|k: int| 0 <= k < key ==> !keys_released[k],
    ensures
        ({
            let instruction = Instruction::GetKey { dest };
            let host = key_inputs(s.cpu, instruction, keys_down, keys_released, random);
            superchip_outcome(s, instruction, host) == Ok::<SuperchipState, InterpreterError>(
                SuperchipState { cpu: s.cpu.set_var(dest as int, key), ..s },
            )
        }),
{
    first_released_is_lowest(keys_released);
}

/// The display stays a grid of 128 by 64 pixels that are 0 or 1, and
/// registers and memory stay well formed, whatever is executed.
pub proof fn superchip_step_keeps_the_model(
    s: SuperchipState,
    instruction: Instruction,
    host: HostInput,
)
    requires
        s.cpu.wf(),
        shaped(s.screen, DISPLAY_WIDTH as int, DISPLAY_HEIGHT as int),
        is_bitmap(s.screen),
        superchip_accepts(s, instruction, host),
    ensures
        superchip_step(s, instruction, host).cpu.wf(),
        shaped(
            superchip_step(s, instruction, host).screen,
            DISPLAY_WIDTH as int,
            DISPLAY_HEIGHT as int,
        ),
        is_bitmap(superchip_step(s, instruction, host).screen),
{
    step_keeps_well_formed(s.cpu, instruction, host, Variant::Schip);
    blank_is_bitmap(DISPLAY_WIDTH as int, DISPLAY_HEIGHT as int);
    match instruction {
        Instruction::Draw { x, y, sprite_height } => {
            let x0 = superchip_draw_x(s, x);
            let y0 = superchip_draw_y(s, y);
            blit_keeps_bitmap(s.screen, superchip_sprite(s, y0, sprite_height), x0, y0);
        },
        Instruction::ScrollRight => {
            scrolls_keep_bitmap(
                s.screen,
                DISPLAY_WIDTH as int,
                DISPLAY_HEIGHT as int,
                SCROLL_COLUMNS * scale(s.hires),
            );
        },
        Instruction::ScrollLeft => {
            scrolls_keep_bitmap(
                s.screen,
                DISPLAY_WIDTH as int,
                DISPLAY_HEIGHT as int,
                SCROLL_COLUMNS * scale(s.hires),
            );
        },
        Instruction::ScrollDown { amount } => {
            assert(amount * scale(s.hires) >= 0) by (nonlinear_arith)
                requires
                    amount >= 0,
                    scale(s.hires) >= 0,
            ;
            scrolls_keep_bitmap(
                s.screen,
                DISPLAY_WIDTH as int,
                DISPLAY_HEIGHT as int,
                amount * scale(s.hires),
            );
        },
        _ => {},
    }
}

/// Only `ClearScreen`, `Draw` and the scrolls change the display.
pub proof fn display_changes_only_by_drawing(
    s: SuperchipState,
    instruction: Instruction,
    host: HostInput,
)
    requires
        !(instruction is ClearScreen),
        !(instruction is Draw),
        !(instruction is ScrollRight),
        !(instruction is ScrollLeft),
        !(instruction is ScrollDown),
    ensures
        superchip_step(s, instruction, host).screen == s.screen,
{
}

/// SUPERCHIP has every instruction: executing one fails only for a `Return`
/// without a return address.
pub proof fn superchip_has_every_instruction(
    s: SuperchipState,
    instruction: Instruction,
    host: HostInput,
)
    ensures
        superchip_outcome(s, instruction, host) matches Err(error) ==> error
            == InterpreterError::PopOutOfMain && instruction is Return,
{
}

} // verus!
