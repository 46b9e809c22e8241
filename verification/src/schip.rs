//! A SUPERCHIP machine that owns its window: it asks the window for the
//! keys and shows it the picture.

use crate::cpu::{after_fetch, fetch_result, CpuState, HostInput, MAX_PROGRAM_SIZE};
use crate::error::InterpreterError;
use crate::instruction::Instruction;
use crate::machine::{key_in_range, key_register, random_byte};
use crate::pacer::{Pacer, PacerState, NANOS_PER_SECOND};
use crate::screen::{blank, shaped};
use crate::superchip::{
    superchip_accepts, superchip_executes, superchip_fetched, Superchip, SuperchipState,
    DISPLAY_HEIGHT, DISPLAY_WIDTH,
};
use crate::window::{Display, Input};
use vstd::prelude::*;

verus! {

/// Instructions per second where the host asks for no other speed.
pub const DEFAULT_SPEED: u64 = 700;

/// The machine as plain mathematical values. The window is not part of
/// it: nothing is known of a window but what it answers.
#[verifier::ext_equal]
pub struct SchipState {
    pub machine: SuperchipState,
    /// Instructions per second.
    pub speed: u64,
}

/// A host that contributes nothing: no key is down, none was released.
pub open spec fn no_input() -> HostInput {
    HostInput { key_down: false, released: None, random: 0 }
}

/// Whether `host` holds nothing but what `instruction` asks of the host: a
/// key test asks whether a key is down, a wait for a key asks for a released
/// key, `Random` asks for a byte, and nothing else asks for anything.
pub open spec fn asked_by(instruction: Instruction, host: HostInput) -> bool {
    &&& host.key_down ==> instruction is SkipIfKey || instruction is SkipIfNotKey
    &&& host.released is Some ==> instruction is GetKey
    &&& host.random != 0 ==> instruction is Random
}

/// Whether `instruction` can run from `s` whatever the window answers: the
/// key that a key test asks about exists, and the instruction can run even
/// if no key was released.
pub open spec fn schip_accepts(s: SchipState, instruction: Instruction) -> bool {
    key_in_range(s.machine.cpu, instruction) && superchip_accepts(
        s.machine,
        instruction,
        no_input(),
    )
}

/// The key that `instruction` asks the window about, if it is a key test:
/// the key whose number the key register holds.
pub open spec fn asked_key(s: SchipState, instruction: Instruction) -> Option<u8> {
    match key_register(instruction) {
        Some(register) => Some(s.machine.cpu.variables[register as int]),
        None => None,
    }
}

/// Whether a cycle can run from `s` whatever the window answers: the
/// instruction that it fetches, if it fetches one, can run.
pub open spec fn schip_ready(s: SchipState) -> bool {
    fetch_result(s.machine.cpu) matches Ok(instruction) ==> schip_accepts(
        SchipState { machine: superchip_fetched(s.machine), ..s },
        instruction,
    )
}

/// Whether going from `before` to `after` with result `done` is one cycle
/// in which the host contributes `host`: fetch the instruction at the
/// program counter, then execute it. A failed fetch ends the cycle with its
/// error and nothing executed; otherwise `host` holds nothing but what the
/// instruction asks for, and the cycle ends as the execution does.
pub open spec fn schip_cycles(
    before: SuperchipState,
    host: HostInput,
    after: SuperchipState,
    done: Result<(), InterpreterError>,
) -> bool {
    let fetched = superchip_fetched(before);
    match fetch_result(before.cpu) {
        Err(error) => done == Err::<(), InterpreterError>(error) && after == fetched,
        Ok(instruction) => asked_by(instruction, host) && superchip_executes(
            fetched,
            instruction,
            host,
            after,
            done,
        ),
    }
}

/// A SUPERCHIP machine with its window.
pub struct Schip<W> where W: Display + Input {
    machine: Superchip,
    speed: u64,
    window: W,
}

impl<W> View for Schip<W> where W: Display + Input {
    type V = SchipState;

    closed spec fn view(&self) -> SchipState {
        SchipState { machine: self.machine@, speed: self.speed }
    }
}

impl<W> Schip<W> where W: Display + Input {
    /// The window that the machine holds.
    pub closed spec fn held_window(&self) -> W {
        self.window
    }

    /// A machine that shows itself in `display` and runs `program`, or
    /// nothing where there is none, at `speed` instructions per second.
    pub fn new(display: W, speed: u64, program: Option<&[u8]>) -> (schip: Self)
        requires
            program matches Some(bytes) ==> bytes@.len() <= MAX_PROGRAM_SIZE,
        ensures
            schip.held_window() == display,
            schip@.speed == speed,
            schip@.machine == (SuperchipState {
                cpu: CpuState::initial(
                    match program {
                        Some(bytes) => bytes@,
                        None => Seq::empty(),
                    },
                    true,
                ),
                screen: blank(DISPLAY_WIDTH as int, DISPLAY_HEIGHT as int),
                hires: false,
                running: true,
            }),
    {
        let machine = match program {
            Some(bytes) => Superchip::new(bytes),
            None => {
                let nothing: [u8; 0] = [];
                let machine = Superchip::new(nothing.as_slice());
                assert(nothing@ =~= Seq::empty());
                machine
            },
        };
        Schip { machine, speed, window: display }
    }

    /// Whether to go on: asks the window whether it is open, unless the
    /// machine has exited, and answers as [`Schip::open_given`] does. After
    /// an `Exit` the answer is `false` whatever the window says.
    pub fn display_open(&self) -> (open: bool)
        ensures
            open ==> self@.machine.running,
    {
        self.machine.is_running() && self.open_given(self.window.is_open())
    }

    /// Counts both timers down by one; a timer at zero stays there.
    pub fn update_timers(&mut self)
        ensures
            final(self).held_window() == old(self).held_window(),
            final(self)@ == (SchipState {
                machine: SuperchipState {
                    cpu: old(self)@.machine.cpu.tick_timers(),
                    ..old(self)@.machine
                },
                ..old(self)@
            }),
    {
        self.machine.update_timers();
    }

    /// Fetches and decodes the instruction at the program counter and
    /// moves past it.
    pub fn next_instruction(&mut self) -> (fetched: Result<Instruction, InterpreterError>)
        ensures
            fetched == fetch_result(old(self)@.machine.cpu),
            fetched matches Ok(instruction) ==> instruction.valid(),
            final(self).held_window() == old(self).held_window(),
            final(self)@ == (SchipState {
                machine: SuperchipState {
                    cpu: after_fetch(old(self)@.machine.cpu),
                    ..old(self)@.machine
                },
                ..old(self)@
            }),
    {
        self.machine.next_instruction()
    }

    /// Executes `instruction`, asking the window whether the key that
    /// [`Schip::key_asked`] names is down, or for a released key, and
    /// drawing a random byte where the instruction asks for one.
    ///
    /// The outcome is that of [`Superchip::execute_with`] for what the
    /// window answered and the byte drawn, with nothing else contributed;
    /// the speed and the window stay.
    pub fn execute_instruction(&mut self, instruction: Instruction) -> (done: Result<
        (),
        InterpreterError,
    >)
        requires
            schip_accepts(old(self)@, instruction),
        ensures
            final(self).held_window() == old(self).held_window(),
            final(self)@.speed == old(self)@.speed,
            exists|host: HostInput|
                asked_by(instruction, host) && #[trigger] superchip_executes(
                    old(self)@.machine,
                    instruction,
                    host,
                    final(self)@.machine,
                    done,
                ),
    {
        let host = self.ask(&instruction);
        let done = self.machine.execute_with(instruction, host);
        assert(asked_by(instruction, host) && superchip_executes(
            old(self)@.machine,
            instruction,
            host,
            self@.machine,
            done,
        ));
        done
    }

    /// Shows the window what [`Superchip::frame`] gives. The machine stays.
    pub fn present(&mut self)
        ensures
            final(self)@ == old(self)@,
    {
        let buffer = self.machine.frame();
        self.window.update_buffer(buffer.as_slice(), DISPLAY_WIDTH, DISPLAY_HEIGHT);
    }

    /// Tells whether [`Schip::execute_instruction`] can run `instruction`
    /// from here.
    pub fn accepts(&self, instruction: &Instruction) -> (ok: bool)
        ensures
            ok == schip_accepts(self@, *instruction),
    {
        let in_range = match *instruction {
            Instruction::SkipIfKey { key_register } => key_register < 16
                && self.machine.cpu().variable(key_register) < 16,
            Instruction::SkipIfNotKey { key_register } => key_register < 16
                && self.machine.cpu().variable(key_register) < 16,
            _ => true,
        };
        in_range && self.machine.accepts_with(
            instruction,
            &HostInput { key_down: false, released: None, random: 0 },
        )
    }

    /// Instructions per second.
    pub fn speed(&self) -> (speed: u64)
        ensures
            speed == self@.speed,
    {
        self.speed
    }

    /// The window.
    pub fn window(&self) -> (window: &W)
        ensures
            *window == self.held_window(),
    {
        &self.window
    }

    /// The machine without its window.
    pub fn machine(&self) -> (machine: &Superchip)
        ensures
            machine@ == self@.machine,
    {
        &self.machine
    }

    /// The key that `instruction` asks the window about, if it is a key
    /// test.
    pub fn key_asked(&self, instruction: &Instruction) -> (key: Option<u8>)
        requires
            key_register(*instruction) matches Some(register) ==> register < 16,
        ensures
            key == asked_key(self@, *instruction),
    {
        match *instruction {
            Instruction::SkipIfKey { key_register } => Some(
                self.machine.cpu().variable(key_register),
            ),
            Instruction::SkipIfNotKey { key_register } => Some(
                self.machine.cpu().variable(key_register),
            ),
            _ => None,
        }
    }

    /// Collects what `instruction` asks of the host: asks the window
    /// whether the key that [`Schip::key_asked`] names is down, or for a
    /// released key, or draws a random byte, or does nothing.
    fn ask(&self, instruction: &Instruction) -> (host: HostInput)
        requires
            key_in_range(self@.machine.cpu, *instruction),
        ensures
            asked_by(*instruction, host),
    {
        match self.key_asked(instruction) {
            Some(key) => HostInput {
                key_down: self.window.is_key_down(key),
                released: None,
                random: 0,
            },
            None => match *instruction {
                Instruction::GetKey { .. } => HostInput {
                    key_down: false,
                    released: self.window.get_key(),
                    random: 0,
                },
                Instruction::Random { .. } => HostInput {
                    key_down: false,
                    released: None,
                    random: random_byte(),
                },
                _ => HostInput { key_down: false, released: None, random: 0 },
            },
        }
    }

    /// Begins a tick at the machine's speed: counts the timers down, once,
    /// and starts the pacing of the cycles that follow.
    pub fn begin_tick(&mut self) -> (pacer: Pacer)
        requires
            old(self)@.speed > 0,
        ensures
            final(self).held_window() == old(self).held_window(),
            final(self)@ == (SchipState {
                machine: SuperchipState {
                    cpu: old(self)@.machine.cpu.tick_timers(),
                    ..old(self)@.machine
                },
                ..old(self)@
            }),
            pacer@ == (PacerState {
                cpu_cycle: (NANOS_PER_SECOND / old(self)@.speed) as nat,
                total_elapsed: 0,
            }),
    {
        self.update_timers();
        Pacer::new(self.speed)
    }

    /// One cycle: fetches the instruction at the program counter and
    /// executes it, asking the window for the key that the instruction
    /// needs and drawing a random byte where it asks for one.
    ///
    /// A failed fetch ends the cycle with its error; nothing is executed
    /// then. The speed and the window stay.
    pub fn cycle(&mut self) -> (done: Result<(), InterpreterError>)
        requires
            schip_ready(old(self)@),
        ensures
            final(self).held_window() == old(self).held_window(),
            final(self)@.speed == old(self)@.speed,
            exists|host: HostInput| #[trigger]
                schip_cycles(old(self)@.machine, host, final(self)@.machine, done),
    {
        let instruction = match self.next_instruction() {
            Ok(instruction) => instruction,
            Err(error) => {
                assert(schip_cycles(old(self)@.machine, no_input(), self@.machine, Err(error)));
                return Err(error);
            },
        };
        let host = self.ask(&instruction);
        let done = self.machine.execute_with(instruction, host);
        assert(schip_cycles(old(self)@.machine, host, self@.machine, done));
        done
    }

    /// Tells whether [`Schip::cycle`] can run from here.
    pub fn is_ready(&self) -> (ok: bool)
        ensures
            ok == schip_ready(self@),
    {
        self.machine.is_ready_with(&HostInput { key_down: false, released: None, random: 0 })
    }

    /// The model of any machine has a display of 128 by 64 pixels, and its
    /// registers and memory are well formed.
    pub proof fn lemma_shaped(&self)
        ensures
            shaped(self@.machine.screen, DISPLAY_WIDTH as int, DISPLAY_HEIGHT as int),
            self@.machine.cpu.wf(),
    {
        self.machine.lemma_shaped();
    }

    /// Whether to go on, given what the window answered when it was asked
    /// whether it is open.
    pub fn open_given(&self, window_open: bool) -> (open: bool)
        ensures
            open == goes_on(self@, window_open),
    {
        self.machine.is_running() && window_open
    }
}

/// Whether a machine in state `s` goes on when its window is open or not:
/// it goes on while it has not exited and the window is open.
pub open spec fn goes_on(s: SchipState, window_open: bool) -> bool {
    s.machine.running && window_open
}

} // verus!
