//! A CHIP-8 machine that is built in steps (blank, with glyphs, with a
//! program), runs the CHIP-8 operations only, and keeps a colour buffer
//! ready for a window.

use crate::chip8::{accepted_on, chip8_accepts, chip8_outcome, chip8_rejects, Chip8State};
use crate::cpu::{
    after_fetch, with_bytes, Cpu, CpuState, HostInput, MAX_PROGRAM_SIZE, PROGRAM_ADDRESS,
};
use crate::display::{rendered, Display, DisplayState, HEIGHT, PIXELS, WIDTH};
use crate::error::InterpreterError;
use crate::font::{FONT, FONT_ADDRESS};
use crate::instruction::Instruction;
use crate::machine::{key_in_range, key_inputs, random_byte, read_keys};
use crate::operation::{chip8_form, decode_operation, operation_of, Operation};
use crate::screen::shaped;
use vstd::prelude::*;

verus! {

/// The machine as plain mathematical values.
#[verifier::ext_equal]
pub struct StateModel {
    pub cpu: CpuState,
    pub display: DisplayState,
}

impl StateModel {
    /// The registers, memory and pixels as a CHIP-8 machine.
    pub open spec fn machine(self) -> Chip8State {
        Chip8State { cpu: self.cpu, screen: self.display.screen }
    }
}

/// What fetching the next operation from `s` returns: the operation at
/// the program counter, `OutOfMemory` where its two bytes do not both lie in
/// memory, or `UnknownOpcode` with the opcode and the address behind it
/// where the opcode encodes no operation.
pub open spec fn next_operation_from(s: CpuState) -> Result<Operation, InterpreterError> {
    if !s.can_fetch() {
        Err(InterpreterError::OutOfMemory)
    } else {
        match decode_operation(s.opcode()) {
            Some(operation) => Ok(operation),
            None => Err(
                InterpreterError::UnknownOpcode {
                    opcode: s.opcode(),
                    address: (s.pc + 2) as usize,
                },
            ),
        }
    }
}

/// Whether `operation` can run from `s`.
pub open spec fn state_accepts(s: StateModel, operation: Operation, host: HostInput) -> bool {
    chip8_accepts(s.machine(), operation.as_instruction(), host)
}

/// Whether going from `before` to `after` with result `done` is what
/// executing `operation` gives: on success registers, memory and pixels are
/// those of the CHIP-8 step, on failure nothing has changed. The colour
/// buffer is left alone either way.
pub open spec fn state_executes(
    before: StateModel,
    operation: Operation,
    host: HostInput,
    after: StateModel,
    done: Result<(), InterpreterError>,
) -> bool {
    match chip8_outcome(before.machine(), operation.as_instruction(), host) {
        Ok(next) => done is Ok && after == (StateModel {
            cpu: next.cpu,
            display: DisplayState { screen: next.screen, ..before.display },
        }),
        Err(error) => done == Err::<(), InterpreterError>(error) && after == before,
    }
}

/// Whether a tick can run from `s`: the operation that it fetches, if it
/// fetches one, can run with these keys.
pub open spec fn state_ready(s: StateModel, keys_down: Seq<bool>, keys_released: Seq<bool>) -> bool {
    let cpu = after_fetch(s.cpu);
    next_operation_from(s.cpu) matches Ok(operation) ==> key_in_range(
        cpu,
        operation.as_instruction(),
    ) && state_accepts(
        StateModel { cpu, ..s },
        operation,
        key_inputs(cpu, operation.as_instruction(), keys_down, keys_released, 0),
    )
}

/// Whether going from `before` to `after` with result `done` is one tick
/// in which `random` is the byte drawn: fetch the next operation, execute
/// it, and bring the colour buffer up to date. A failure ends the tick where
/// it happens: a failed fetch leaves the state that the fetch leaves, with
/// nothing executed.
pub open spec fn state_ticks(
    before: StateModel,
    keys_down: Seq<bool>,
    keys_released: Seq<bool>,
    random: u8,
    after: StateModel,
    done: Result<(), InterpreterError>,
) -> bool {
    let cpu = after_fetch(before.cpu);
    let fetched_state = StateModel { cpu, ..before };
    match next_operation_from(before.cpu) {
        Err(error) => done == Err::<(), InterpreterError>(error) && after == fetched_state,
        Ok(operation) => match chip8_outcome(
            fetched_state.machine(),
            operation.as_instruction(),
            key_inputs(cpu, operation.as_instruction(), keys_down, keys_released, random),
        ) {
            Err(error) => done == Err::<(), InterpreterError>(error) && after == fetched_state,
            Ok(next) => done is Ok && after == (StateModel {
                cpu: next.cpu,
                display: DisplayState { screen: next.screen, buffer: rendered(next.screen) },
            }),
        },
    }
}

/// A CHIP-8 machine with its display.
pub struct State {
    cpu: Cpu,
    display: Display,
}

impl View for State {
    type V = StateModel;

    closed spec fn view(&self) -> StateModel {
        StateModel { cpu: self.cpu@, display: self.display@ }
    }
}

impl State {
    /// A machine with everything zero: no glyphs, no program.
    pub fn new() -> (state: State)
        ensures
            state@ == (StateModel { cpu: CpuState::blank(), display: DisplayState::blank() }),
    {
        State { cpu: Cpu::blank(), display: Display::new() }
    }

    /// A machine with the small glyphs in memory and all else zero.
    pub fn default() -> (state: State)
        ensures
            state@ == (StateModel {
                cpu: CpuState {
                    memory: with_bytes(CpuState::blank().memory, FONT_ADDRESS as int, FONT@),
                    ..CpuState::blank()
                },
                display: DisplayState::blank(),
            }),
    {
        let mut state = State::new();
        state.cpu.write_bytes(FONT_ADDRESS, FONT.as_slice());
        state
    }

    /// Copies `program` into memory and points the program counter at its
    /// first byte.
    pub fn load_program(&mut self, program: &Vec<u8>)
        requires
            program@.len() <= MAX_PROGRAM_SIZE,
        ensures
            final(self)@ == (StateModel {
                cpu: CpuState {
                    memory: with_bytes(old(self)@.cpu.memory, PROGRAM_ADDRESS as int, program@),
                    pc: PROGRAM_ADDRESS as int,
                    ..old(self)@.cpu
                },
                ..old(self)@
            }),
    {
        self.cpu.write_bytes(PROGRAM_ADDRESS, program.as_slice());
        self.cpu.jump_to(PROGRAM_ADDRESS);
    }

    /// Fetches and decodes the operation at the program counter and moves
    /// past it.
    ///
    /// An opcode that encodes no operation is reported, not passed over:
    /// the program counter has moved past it, and the host decides whether
    /// to go on.
    pub fn next_operation(&mut self) -> (fetched: Result<Operation, InterpreterError>)
        ensures
            fetched == next_operation_from(old(self)@.cpu),
            final(self)@ == (StateModel { cpu: after_fetch(old(self)@.cpu), ..old(self)@ }),
            fetched matches Ok(operation) ==> operation.as_instruction().valid(),
    {
        match self.cpu.fetch() {
            Ok(opcode) => match Operation::new(opcode) {
                Some(operation) => Ok(operation),
                None => Err(InterpreterError::UnknownOpcode { opcode, address: self.cpu.pc() }),
            },
            Err(error) => Err(error),
        }
    }

    /// Executes `operation`, given what the host contributes to it.
    pub fn execute_operation(&mut self, operation: Operation, host: HostInput) -> (done: Result<
        (),
        InterpreterError,
    >)
        requires
            state_accepts(old(self)@, operation, host),
        ensures
            state_executes(old(self)@, operation, host, final(self)@, done),
    {
        self.display.execute(&mut self.cpu, operation.instruction(), host)
    }

    /// One tick: fetches the next operation, executes it with the keypad
    /// read from the two key arrays and a random byte drawn where the
    /// operation asks for one, and brings the colour buffer up to date.
    pub fn tick(&mut self, keys_down: &[bool; 16], keys_released: &[bool; 16]) -> (done: Result<
        (),
        InterpreterError,
    >)
        requires
            state_ready(old(self)@, keys_down@, keys_released@),
        ensures
            exists|random: u8| #[trigger]
                state_ticks(old(self)@, keys_down@, keys_released@, random, final(self)@, done),
            !(next_operation_from(old(self)@.cpu) matches Ok(Operation::Random { .. }))
                ==> state_ticks(old(self)@, keys_down@, keys_released@, 0, final(self)@, done),
    {
        let operation = match self.next_operation() {
            Ok(operation) => operation,
            Err(error) => {
                assert(state_ticks(old(self)@, keys_down@, keys_released@, 0, self@, Err(error)));
                return Err(error);
            },
        };
        let random = match operation {
            Operation::Random { .. } => random_byte(),
            _ => 0,
        };
        let instruction = operation.instruction();
        let host = read_keys(&self.cpu, &instruction, keys_down, keys_released, random);
        match self.execute_operation(operation, host) {
            Ok(()) => {},
            Err(error) => {
                assert(state_ticks(
                    old(self)@,
                    keys_down@,
                    keys_released@,
                    random,
                    self@,
                    Err(error),
                ));
                return Err(error);
            },
        }
        self.display.update();
        assert(state_ticks(old(self)@, keys_down@, keys_released@, random, self@, Ok(())));
        Ok(())
    }

    /// Tells whether [`State::tick`] can run from here with these keys.
    pub fn is_ready(&self, keys_down: &[bool; 16], keys_released: &[bool; 16]) -> (ok: bool)
        ensures
            ok == state_ready(self@, keys_down@, keys_released@),
    {
        let mut probe = Cpu::blank();
        probe.copy_from(&self.cpu);
        let mut ahead = State { cpu: probe, display: Display::new() };
        match ahead.next_operation() {
            Ok(operation) => {
                let instruction = operation.instruction();
                let in_range = match instruction {
                    Instruction::SkipIfKey { key_register } => ahead.cpu.variable(key_register)
                        < 16,
                    Instruction::SkipIfNotKey { key_register } => ahead.cpu.variable(key_register)
                        < 16,
                    _ => true,
                };
                if !in_range {
                    return false;
                }
                let host = read_keys(&ahead.cpu, &instruction, keys_down, keys_released, 0);
                accepted_on(&ahead.cpu, &instruction, &host)
            },
            Err(_) => true,
        }
    }

    /// Tells whether [`State::execute_operation`] can run `operation` from
    /// here.
    pub fn accepts(&self, operation: &Operation, host: &HostInput) -> (ok: bool)
        ensures
            ok == state_accepts(self@, *operation, *host),
    {
        let instruction = operation.instruction();
        accepted_on(&self.cpu, &instruction, host)
    }

    /// The model of any machine has a display of 64 by 32 pixels with as
    /// many colours, and its registers and memory are well formed.
    pub proof fn lemma_shaped(&self)
        ensures
            shaped(self@.display.screen, WIDTH as int, HEIGHT as int),
            self@.display.buffer.len() == PIXELS,
            self@.cpu.wf(),
    {
        self.cpu.lemma_wf();
        self.display.lemma_shaped();
    }

    /// Registers and memory.
    pub fn cpu(&self) -> (cpu: &Cpu)
        ensures
            cpu@ == self@.cpu,
    {
        &self.cpu
    }

    /// The display.
    pub fn display(&self) -> (display: &Display)
        ensures
            display@ == self@.display,
    {
        &self.display
    }
}

/// Every operation is an instruction that CHIP-8 has, so executing one
/// never fails for being outside the instruction set.
pub proof fn operations_are_never_rejected(operation: Operation)
    ensures
        !chip8_rejects(operation.as_instruction()),
        operation_of(operation.as_instruction()) is Some,
{
}

/// On CHIP-8 an instruction and its CHIP-8 form do the same, and the form
/// can run wherever the instruction can.
pub proof fn chip8_form_does_the_same(s: Chip8State, instruction: Instruction, host: HostInput)
    ensures
        chip8_outcome(s, chip8_form(instruction), host) == chip8_outcome(s, instruction, host),
        chip8_accepts(s, instruction, host) ==> chip8_accepts(s, chip8_form(instruction), host),
{
}

/// A fetch fails in two ways only: with `OutOfMemory`, leaving the program
/// counter where it is, exactly where the two bytes do not both lie in
/// memory; and with `UnknownOpcode`, exactly where they do and encode no
/// operation. Whenever the bytes lie in memory, the program counter moves
/// past them and nothing else changes.
pub proof fn fetch_reports_what_it_cannot_decode(s: CpuState)
    ensures
        next_operation_from(s) == Err::<Operation, InterpreterError>(InterpreterError::OutOfMemory)
            <==> !s.can_fetch(),
        next_operation_from(s) matches Err(InterpreterError::UnknownOpcode { opcode, address })
            ==> s.can_fetch() && decode_operation(opcode) is None && opcode == s.opcode()
            && address == (s.pc + 2) as usize,
        s.can_fetch() && decode_operation(s.opcode()) is None ==> next_operation_from(s) is Err,
        after_fetch(s) == if s.can_fetch() {
            CpuState { pc: s.pc + 2, ..s }
        } else {
            s
        },
{
}

} // verus!
