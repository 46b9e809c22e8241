//! The registers and memory that both machine variants share, and the
//! instructions that touch nothing else.
//!
//! [`CpuState`] is the mathematical model; [`cpu_step`] says what each
//! instruction does to it. [`Cpu`] is the executable state, and its view is a
//! `CpuState`.

use crate::args::Variant;
use crate::error::InterpreterError;
use crate::font::{
    big_glyph_address, glyph_address, BIGFONT, BIGFONT_ADDRESS, BIGFONT_WIDTH, FONT, FONT_ADDRESS,
    FONT_WIDTH,
};
use crate::instruction::{decode, Instruction};
use vstd::prelude::*;

verus! {

/// Bytes of memory.
pub const MEMORY_SIZE: usize = 4096;

/// Where a program is loaded, and where execution starts.
pub const PROGRAM_ADDRESS: usize = 0x200;

/// The longest program that fits between `PROGRAM_ADDRESS` and the end of
/// memory.
pub const MAX_PROGRAM_SIZE: usize = 3584;

/// What the host contributes to one instruction.
#[derive(Clone, Copy, Debug)]
pub struct HostInput {
    /// Whether the key that a key test asks about is held down.
    pub key_down: bool,
    /// A key that was released since the last poll, if any.
    pub released: Option<u8>,
    /// A byte drawn at random.
    pub random: u8,
}

/// Registers and memory as plain mathematical values.
#[verifier::ext_equal]
pub struct CpuState {
    pub memory: Seq<u8>,
    pub pc: int,
    pub index: int,
    pub stack: Seq<int>,
    pub delay_timer: u8,
    pub sound_timer: u8,
    pub variables: Seq<u8>,
}

/// The low eight bits of `n`.
pub open spec fn wrap8(n: int) -> u8 {
    (n % 256) as u8
}

/// Memory with nothing loaded.
pub open spec fn blank_memory() -> Seq<u8> {
    Seq::new(MEMORY_SIZE as nat, |a: int| 0u8)
}

/// `memory` with `bytes` copied to `at` and the following addresses.
pub open spec fn with_bytes(memory: Seq<u8>, at: int, bytes: Seq<u8>) -> Seq<u8> {
    Seq::new(
        memory.len(),
        |a: int|
            if at <= a < at + bytes.len() {
                bytes[a - at]
            } else {
                memory[a]
            },
    )
}

/// Memory right after construction: the glyphs, then the program.
pub open spec fn initial_memory(program: Seq<u8>, big_font: bool) -> Seq<u8> {
    let small = with_bytes(blank_memory(), FONT_ADDRESS as int, FONT@);
    let fonts = if big_font {
        with_bytes(small, BIGFONT_ADDRESS as int, BIGFONT@)
    } else {
        small
    };
    with_bytes(fonts, PROGRAM_ADDRESS as int, program)
}

impl CpuState {
    /// Memory has 4096 bytes, there are 16 registers, and every address held
    /// fits a machine word.
    pub open spec fn wf(self) -> bool {
        &&& self.memory.len() == MEMORY_SIZE
        &&& self.variables.len() == 16
        &&& 0 <= self.pc <= usize::MAX
        &&& 0 <= self.index <= usize::MAX
        &&& forall|i: int| 0 <= i < self.stack.len() ==> 0 <= #[trigger] self.stack[i] <= usize::MAX
    }

    /// Everything zero and nothing loaded.
    pub open spec fn blank() -> CpuState {
        CpuState {
            memory: blank_memory(),
            pc: 0,
            index: 0,
            stack: Seq::empty(),
            delay_timer: 0,
            sound_timer: 0,
            variables: Seq::new(16, |k: int| 0u8),
        }
    }

    /// A machine about to run `program`.
    pub open spec fn initial(program: Seq<u8>, big_font: bool) -> CpuState {
        CpuState {
            memory: initial_memory(program, big_font),
            pc: PROGRAM_ADDRESS as int,
            ..CpuState::blank()
        }
    }

    /// Register `k` holds `value`, the others are untouched.
    pub open spec fn set_var(self, k: int, value: u8) -> CpuState {
        CpuState { variables: self.variables.update(k, value), ..self }
    }

    /// The flag register `VF` holds `value`.
    pub open spec fn set_flag(self, value: u8) -> CpuState {
        self.set_var(0xF, value)
    }

    /// The program counter moves past the next instruction if `condition`
    /// holds.
    pub open spec fn skip_if(self, condition: bool) -> CpuState {
        if condition {
            CpuState { pc: self.pc + 2, ..self }
        } else {
            self
        }
    }

    /// Both timers one tick later: each goes down by one and stays at zero.
    pub open spec fn tick_timers(self) -> CpuState {
        CpuState {
            delay_timer: if self.delay_timer == 0 {
                0u8
            } else {
                (self.delay_timer - 1) as u8
            },
            sound_timer: if self.sound_timer == 0 {
                0u8
            } else {
                (self.sound_timer - 1) as u8
            },
            ..self
        }
    }

    /// Whether the two bytes at the program counter lie in memory.
    pub open spec fn can_fetch(self) -> bool {
        self.pc + 2 <= MEMORY_SIZE
    }

    /// The opcode at the program counter: big-endian, two bytes.
    pub open spec fn opcode(self) -> u16 {
        (self.memory[self.pc] as int * 256 + self.memory[self.pc + 1] as int) as u16
    }

    /// The state after a fetch: the program counter has moved on.
    pub open spec fn fetched(self) -> CpuState {
        CpuState { pc: self.pc + 2, ..self }
    }
}

/// Whether `instruction` can run from `s`: its operands are in range, the
/// program counter can move where the instruction moves it, and the memory
/// it transfers lies within bounds.
pub open spec fn cpu_accepts(s: CpuState, instruction: Instruction, host: HostInput) -> bool {
    &&& instruction.valid()
    &&& match instruction {
        Instruction::SkipEq { .. }
        | Instruction::SkipNotEq { .. }
        | Instruction::SkipEqLiteral { .. }
        | Instruction::SkipNotEqLiteral { .. }
        | Instruction::SkipIfKey { .. }
        | Instruction::SkipIfNotKey { .. } => s.pc + 2 <= usize::MAX,
        Instruction::GetKey { .. } => host.released is None ==> s.pc >= 2,
        Instruction::DecimalConversion { .. } => s.index + 2 < MEMORY_SIZE,
        Instruction::StoreMemory { registers } => s.index + registers < MEMORY_SIZE,
        Instruction::LoadMemory { registers } => s.index + registers < MEMORY_SIZE,
        _ => true,
    }
}

/// Whether `instruction` fails on `s` for want of a return address.
pub open spec fn cpu_underflows(s: CpuState, instruction: Instruction) -> bool {
    instruction is Return && s.stack.len() == 0
}

/// The register that a `JumpOffset` adds: `V0` on CHIP-8, the register that
/// the opcode names on SUPERCHIP.
pub open spec fn jump_register(variant: Variant, offset_register: usize) -> int {
    match variant {
        Variant::Chip8 => 0,
        Variant::Schip => offset_register as int,
    }
}

/// The register that a shift reads: the second operand on CHIP-8, the
/// first on SUPERCHIP, which shifts in place.
pub open spec fn shift_source(variant: Variant, lhs: usize, rhs: usize) -> int {
    match variant {
        Variant::Chip8 => rhs as int,
        Variant::Schip => lhs as int,
    }
}

/// What `instruction` does to registers and memory.
///
/// An instruction that writes a result and the flag writes the flag last,
/// so the flag wins where both name `VF`. Instructions that only concern the
/// display leave the state as it is, and so does a `Return` without a return
/// address.
pub open spec fn cpu_step(
    s: CpuState,
    instruction: Instruction,
    host: HostInput,
    variant: Variant,
) -> CpuState {
    let v = s.variables;
    match instruction {
        Instruction::Jump { address } => CpuState { pc: address as int, ..s },
        Instruction::JumpOffset { address, offset_register } => CpuState {
            pc: address + v[jump_register(variant, offset_register)],
            ..s
        },
        Instruction::Call { address } => CpuState {
            pc: address as int,
            stack: s.stack.push(s.pc),
            ..s
        },
        Instruction::Return => if s.stack.len() > 0 {
            CpuState { pc: s.stack.last(), stack: s.stack.drop_last(), ..s }
        } else {
            s
        },
        Instruction::Assign { dest, src } => s.set_var(dest as int, v[src as int]),
        Instruction::SetLiteral { dest, value } => s.set_var(dest as int, value),
        Instruction::Or { lhs, rhs } => s.set_var(lhs as int, v[lhs as int] | v[rhs as int]),
        Instruction::And { lhs, rhs } => s.set_var(lhs as int, v[lhs as int] & v[rhs as int]),
        Instruction::Xor { lhs, rhs } => s.set_var(lhs as int, v[lhs as int] ^ v[rhs as int]),
        Instruction::Add { lhs, rhs } => {
            let sum = v[lhs as int] + v[rhs as int];
            s.set_var(lhs as int, wrap8(sum)).set_flag(if sum > 255 { 1 } else { 0 })
        },
        Instruction::AddLiteral { dest, value } => s.set_var(
            dest as int,
            wrap8(v[dest as int] + value),
        ),
        Instruction::Sub { lhs, rhs, dest } => {
            let a = v[lhs as int];
            let b = v[rhs as int];
            s.set_var(dest as int, wrap8(a - b)).set_flag(if a >= b { 1 } else { 0 })
        },
        Instruction::LeftShift { lhs, rhs } => {
            let a = v[shift_source(variant, lhs, rhs)];
            s.set_var(lhs as int, wrap8(a * 2)).set_flag(a / 128)
        },
        Instruction::RightShift { lhs, rhs } => {
            let a = v[shift_source(variant, lhs, rhs)];
            s.set_var(lhs as int, a / 2).set_flag(a % 2)
        },
        Instruction::SetIndex { src } => CpuState { index: src as int, ..s },
        Instruction::AddIndex { src } => {
            let sum = s.index + v[src as int];
            if sum > usize::MAX {
                CpuState { index: sum - usize::MAX - 1, ..s }.set_flag(1)
            } else {
                CpuState { index: sum, ..s }.set_flag(0)
            }
        },
        Instruction::SkipEq { x, y } => s.skip_if(v[x as int] == v[y as int]),
        Instruction::SkipNotEq { x, y } => s.skip_if(v[x as int] != v[y as int]),
        Instruction::SkipEqLiteral { x, value } => s.skip_if(v[x as int] == value),
        Instruction::SkipNotEqLiteral { x, value } => s.skip_if(v[x as int] != value),
        Instruction::SkipIfKey { .. } => s.skip_if(host.key_down),
        Instruction::SkipIfNotKey { .. } => s.skip_if(!host.key_down),
        Instruction::GetDelay { dest } => s.set_var(dest as int, s.delay_timer),
        Instruction::SetDelay { src } => CpuState { delay_timer: v[src as int], ..s },
        Instruction::SetSound { src } => CpuState { sound_timer: v[src as int], ..s },
        Instruction::GetKey { dest } => match host.released {
            Some(key) => s.set_var(dest as int, key),
            None => CpuState { pc: s.pc - 2, ..s },
        },
        Instruction::SetIndexFont { src, big } => CpuState {
            index: if big {
                big_glyph_address(v[src as int])
            } else {
                glyph_address(v[src as int])
            },
            ..s
        },
        Instruction::DecimalConversion { src } => {
            let n = v[src as int];
            CpuState {
                memory: s.memory.update(s.index, n / 100).update(s.index + 1, (n / 10) % 10).update(
                    s.index + 2,
                    n % 10,
                ),
                ..s
            }
        },
        Instruction::StoreMemory { registers } => CpuState {
            memory: with_bytes(s.memory, s.index, v.take(registers + 1)),
            ..s
        },
        Instruction::LoadMemory { registers } => CpuState {
            variables: Seq::new(
                16,
                |k: int|
                    if k <= registers {
                        s.memory[s.index + k]
                    } else {
                        v[k]
                    },
            ),
            ..s
        },
        Instruction::Random { x, mask } => s.set_var(x as int, host.random & mask),
        _ => s,
    }
}

/// What a fetch and decode from `s` returns: the instruction at the program
/// counter, `OutOfMemory` where its two bytes do not both lie in memory, or
/// `UnknownOpcode` with the opcode and the address behind it.
pub open spec fn fetch_result(s: CpuState) -> Result<Instruction, InterpreterError> {
    if !s.can_fetch() {
        Err(InterpreterError::OutOfMemory)
    } else {
        match decode(s.opcode()) {
            Some(instruction) => Ok(instruction),
            None => Err(
                InterpreterError::UnknownOpcode {
                    opcode: s.opcode(),
                    address: (s.pc + 2) as usize,
                },
            ),
        }
    }
}

/// The state that a fetch leaves: the program counter has moved past the
/// opcode, unless there was none to fetch.
pub open spec fn after_fetch(s: CpuState) -> CpuState {
    if s.can_fetch() {
        s.fetched()
    } else {
        s
    }
}

/// The rows of a sprite of `count` rows at the index register: one byte
/// per row, or two for a `wide` sprite, leftmost pixel in the top bit.
pub open spec fn sprite_words(s: CpuState, count: int, wide: bool) -> Seq<u16> {
    Seq::new(
        count as nat,
        |k: int|
            if wide {
                (s.memory[s.index + 2 * k] as int * 256 + s.memory[s.index + 2 * k + 1] as int) as u16
            } else {
                (s.memory[s.index + k] as int * 256) as u16
            },
    )
}

/// Whether the `bytes` bytes at the index register lie in memory.
pub open spec fn readable(s: CpuState, bytes: int) -> bool {
    bytes <= 0 || s.index + bytes <= MEMORY_SIZE
}

/// The executable registers and memory.
pub struct Cpu {
    memory: [u8; 4096],
    pc: usize,
    index: usize,
    stack: Vec<usize>,
    delay_timer: u8,
    sound_timer: u8,
    variables: [u8; 16],
}

impl View for Cpu {
    type V = CpuState;

    closed spec fn view(&self) -> CpuState {
        CpuState {
            memory: self.memory@,
            pc: self.pc as int,
            index: self.index as int,
            stack: self.stack@.map_values(|a: usize| a as int),
            delay_timer: self.delay_timer,
            sound_timer: self.sound_timer,
            variables: self.variables@,
        }
    }
}

impl Cpu {
    /// The model of any `Cpu` is well formed.
    pub proof fn lemma_wf(&self)
        ensures
            self@.wf(),
    {
    }

    /// A machine with everything zero and nothing loaded.
    pub fn blank() -> (cpu: Cpu)
        ensures
            cpu@ == CpuState::blank(),
    {
        let cpu = Cpu {
            memory: [0u8; 4096],
            pc: 0,
            index: 0,
            stack: Vec::new(),
            delay_timer: 0,
            sound_timer: 0,
            variables: [0u8; 16],
        };
        assert(cpu@ =~= CpuState::blank());
        cpu
    }

    /// Copies `bytes` into memory from `at` on.
    pub fn write_bytes(&mut self, at: usize, bytes: &[u8])
        requires
            at + bytes@.len() <= MEMORY_SIZE,
        ensures
            final(self)@ == (CpuState {
                memory: with_bytes(old(self)@.memory, at as int, bytes@),
                ..old(self)@
            }),
    {
        let mut i: usize = 0;
        while i < bytes.len()
            invariant
                i <= bytes@.len(),
                at + bytes@.len() <= MEMORY_SIZE,
                self@ == (CpuState {
                    memory: with_bytes(old(self)@.memory, at as int, bytes@.take(i as int)),
                    ..old(self)@
                }),
            decreases bytes@.len() - i,
        {
            self.memory[at + i] = bytes[i];
            i += 1;
            assert(self@.memory =~= with_bytes(
                old(self)@.memory,
                at as int,
                bytes@.take(i as int),
            ));
        }
        assert(bytes@.take(i as int) =~= bytes@);
    }

    /// A machine about to run `program`: the glyphs and the program are in
    /// memory, the program counter is at the program's first byte, and all
    /// else is zero.
    pub fn new(program: &[u8], big_font: bool) -> (cpu: Cpu)
        requires
            program@.len() <= MAX_PROGRAM_SIZE,
        ensures
            cpu@ == CpuState::initial(program@, big_font),
    {
        let mut cpu = Cpu::blank();
        cpu.write_bytes(FONT_ADDRESS, FONT.as_slice());
        if big_font {
            cpu.write_bytes(BIGFONT_ADDRESS, BIGFONT.as_slice());
        }
        cpu.write_bytes(PROGRAM_ADDRESS, program);
        cpu.pc = PROGRAM_ADDRESS;
        assert(cpu@ =~= CpuState::initial(program@, big_font));
        cpu
    }

    /// Counts both timers down by one; a timer at zero stays there.
    pub fn update_timers(&mut self)
        ensures
            final(self)@ == old(self)@.tick_timers(),
    {
        if self.delay_timer > 0 {
            self.delay_timer = self.delay_timer - 1;
        }
        if self.sound_timer > 0 {
            self.sound_timer = self.sound_timer - 1;
        }
    }

    /// Reads the opcode at the program counter and moves past it.
    ///
    /// Fails with `OutOfMemory`, changing nothing, exactly when the two
    /// bytes do not both lie in memory.
    pub fn fetch(&mut self) -> (fetched: Result<u16, InterpreterError>)
        ensures
            old(self)@.can_fetch() ==> fetched == Ok::<u16, InterpreterError>(old(self)@.opcode())
                && final(self)@ == old(self)@.fetched(),
            !old(self)@.can_fetch() ==> fetched == Err::<u16, InterpreterError>(
                InterpreterError::OutOfMemory,
            ) && final(self)@ == old(self)@,
    {
        if self.pc > MEMORY_SIZE - 2 {
            return Err(InterpreterError::OutOfMemory);
        }
        let high = self.memory[self.pc] as u16;
        let low = self.memory[self.pc + 1] as u16;
        self.pc += 2;
        Ok(high * 256 + low)
    }

    /// Tells whether `instruction` can run from here.
    pub fn accepts(&self, instruction: &Instruction, host: &HostInput) -> (ok: bool)
        ensures
            ok == cpu_accepts(self@, *instruction, *host),
    {
        if !instruction.is_valid() {
            return false;
        }
        match *instruction {
            Instruction::SkipEq { .. }
            | Instruction::SkipNotEq { .. }
            | Instruction::SkipEqLiteral { .. }
            | Instruction::SkipNotEqLiteral { .. }
            | Instruction::SkipIfKey { .. }
            | Instruction::SkipIfNotKey { .. } => self.pc <= usize::MAX - 2,
            Instruction::GetKey { .. } => host.released.is_some() || self.pc >= 2,
            Instruction::DecimalConversion { .. } => self.index < MEMORY_SIZE - 2,
            Instruction::StoreMemory { registers } => self.index < MEMORY_SIZE - registers,
            Instruction::LoadMemory { registers } => self.index < MEMORY_SIZE - registers,
            _ => true,
        }
    }

    /// Writes `value` to register `k`.
    fn set_variable(&mut self, k: usize, value: u8)
        requires
            k < 16,
        ensures
            final(self)@ == old(self)@.set_var(k as int, value),
    {
        self.variables[k] = value;
    }

    /// Moves past the next instruction if `condition` holds.
    fn skip_if(&mut self, condition: bool)
        requires
            old(self)@.pc + 2 <= usize::MAX,
        ensures
            final(self)@ == old(self)@.skip_if(condition),
    {
        if condition {
            self.pc += 2;
        }
    }

    /// Writes `V0..=V[registers]` to memory at the index register.
    fn store_registers(&mut self, registers: usize)
        requires
            registers < 16,
            old(self)@.index + registers < MEMORY_SIZE,
        ensures
            final(self)@ == (CpuState {
                memory: with_bytes(
                    old(self)@.memory,
                    old(self)@.index,
                    old(self)@.variables.take(registers + 1),
                ),
                ..old(self)@
            }),
    {
        let mut i: usize = 0;
        while i <= registers
            invariant
                i <= registers + 1,
                registers < 16,
                self@.index + registers < MEMORY_SIZE,
                self@ == (CpuState {
                    memory: with_bytes(
                        old(self)@.memory,
                        old(self)@.index,
                        old(self)@.variables.take(i as int),
                    ),
                    ..old(self)@
                }),
            decreases registers + 1 - i,
        {
            self.memory[self.index + i] = self.variables[i];
            i += 1;
            assert(self@.memory =~= with_bytes(
                old(self)@.memory,
                old(self)@.index,
                old(self)@.variables.take(i as int),
            ));
        }
    }

    /// Reads `V0..=V[registers]` from memory at the index register.
    fn load_registers(&mut self, registers: usize)
        requires
            registers < 16,
            old(self)@.index + registers < MEMORY_SIZE,
        ensures
            final(self)@ == cpu_step(
                old(self)@,
                Instruction::LoadMemory { registers },
                HostInput { key_down: false, released: None, random: 0 },
                Variant::Chip8,
            ),
    {
        let mut i: usize = 0;
        while i <= registers
            invariant
                i <= registers + 1,
                registers < 16,
                self@.index + registers < MEMORY_SIZE,
                self@ == (CpuState {
                    variables: Seq::new(
                        16,
                        |k: int|
                            if k < i {
                                old(self)@.memory[old(self)@.index + k]
                            } else {
                                old(self)@.variables[k]
                            },
                    ),
                    ..old(self)@
                }),
            decreases registers + 1 - i,
        {
            self.variables[i] = self.memory[self.index + i];
            i += 1;
            assert(self@.variables =~= Seq::new(
                16,
                |k: int|
                    if k < i {
                        old(self)@.memory[old(self)@.index + k]
                    } else {
                        old(self)@.variables[k]
                    },
            ));
        }
        assert(self@.variables =~= Seq::new(
            16,
            |k: int|
                if k <= registers {
                    old(self)@.memory[old(self)@.index + k]
                } else {
                    old(self)@.variables[k]
                },
        ));
    }

    /// Writes the three decimal digits of `V[src]` to memory at the index
    /// register, hundreds first.
    fn store_decimal(&mut self, src: usize)
        requires
            src < 16,
            old(self)@.index + 2 < MEMORY_SIZE,
        ensures
            final(self)@ == cpu_step(
                old(self)@,
                Instruction::DecimalConversion { src },
                HostInput { key_down: false, released: None, random: 0 },
                Variant::Chip8,
            ),
    {
        let n = self.variables[src];
        self.memory[self.index + 2] = n % 10;
        self.memory[self.index + 1] = (n / 10) % 10;
        self.memory[self.index] = n / 100;
        assert(self@.memory =~= old(self)@.memory.update(old(self)@.index, n / 100).update(
            old(self)@.index + 1,
            (n / 10) % 10,
        ).update(old(self)@.index + 2, n % 10));
    }

    /// The arithmetic and logic instructions.
    fn execute_alu(&mut self, instruction: Instruction, variant: Variant)
        requires
            instruction.valid(),
            instruction is Assign || instruction is SetLiteral || instruction is Or
                || instruction is And || instruction is Xor || instruction is Add
                || instruction is AddLiteral || instruction is Sub || instruction is LeftShift
                || instruction is RightShift,
        ensures
            final(self)@ == cpu_step(
                old(self)@,
                instruction,
                HostInput { key_down: false, released: None, random: 0 },
                variant,
            ),
    {
        match instruction {
            Instruction::Assign { dest, src } => {
                self.variables[dest] = self.variables[src];
            },
            Instruction::SetLiteral { dest, value } => {
                self.variables[dest] = value;
            },
            Instruction::Or { lhs, rhs } => {
                self.variables[lhs] = self.variables[lhs] | self.variables[rhs];
            },
            Instruction::And { lhs, rhs } => {
                self.variables[lhs] = self.variables[lhs] & self.variables[rhs];
            },
            Instruction::Xor { lhs, rhs } => {
                self.variables[lhs] = self.variables[lhs] ^ self.variables[rhs];
            },
            Instruction::Add { lhs, rhs } => {
                let sum: u16 = self.variables[lhs] as u16 + self.variables[rhs] as u16;
                self.variables[lhs] = (sum % 256) as u8;
                self.variables[0xF] = if sum > 255 { 1 } else { 0 };
            },
            Instruction::AddLiteral { dest, value } => {
                let sum: u16 = self.variables[dest] as u16 + value as u16;
                self.variables[dest] = (sum % 256) as u8;
            },
            Instruction::Sub { lhs, rhs, dest } => {
                let a = self.variables[lhs];
                let b = self.variables[rhs];
                if a >= b {
                    self.variables[dest] = a - b;
                    self.variables[0xF] = 1;
                } else {
                    self.variables[dest] = (256 - (b - a) as u16) as u8;
                    self.variables[0xF] = 0;
                }
            },
            Instruction::LeftShift { lhs, rhs } => {
                let a = match variant {
                    Variant::Chip8 => self.variables[rhs],
                    Variant::Schip => self.variables[lhs],
                };
                assert(a >> 7 == a / 128 && a << 1 == ((a as int) * 2) % 256) by (bit_vector);
                self.variables[lhs] = a << 1;
                self.variables[0xF] = a >> 7;
            },
            Instruction::RightShift { lhs, rhs } => {
                let a = match variant {
                    Variant::Chip8 => self.variables[rhs],
                    Variant::Schip => self.variables[lhs],
                };
                assert(a >> 1 == a / 2 && a & 1 == a % 2) by (bit_vector);
                self.variables[lhs] = a >> 1;
                self.variables[0xF] = a & 1;
            },
            _ => {},
        }
        assert(self@ =~= cpu_step(
            old(self)@,
            instruction,
            HostInput { key_down: false, released: None, random: 0 },
            variant,
        ));
    }

    /// Runs one instruction on registers and memory.
    ///
    /// A `Return` without a return address fails with `PopOutOfMain` and
    /// changes nothing; everything else succeeds and leaves the state that
    /// [`cpu_step`] gives.
    pub fn execute(&mut self, instruction: Instruction, host: HostInput, variant: Variant) -> (done:
        Result<(), InterpreterError>)
        requires
            cpu_accepts(old(self)@, instruction, host),
        ensures
            final(self)@ == cpu_step(old(self)@, instruction, host, variant),
            cpu_underflows(old(self)@, instruction) ==> done == Err::<(), InterpreterError>(
                InterpreterError::PopOutOfMain,
            ),
            !cpu_underflows(old(self)@, instruction) ==> done is Ok,
    {
        match instruction {
            Instruction::Jump { address } => {
                self.pc = address;
            },
            Instruction::JumpOffset { address, offset_register } => {
                let register = match variant {
                    Variant::Chip8 => 0,
                    Variant::Schip => offset_register,
                };
                self.pc = address + self.variables[register] as usize;
            },
            Instruction::Call { address } => {
                self.stack.push(self.pc);
                self.pc = address;
            },
            Instruction::Return => {
                match self.stack.pop() {
                    Some(address) => {
                        self.pc = address;
                    },
                    None => {
                        return Err(InterpreterError::PopOutOfMain);
                    },
                }
            },
            Instruction::Assign { .. }
            | Instruction::SetLiteral { .. }
            | Instruction::Or { .. }
            | Instruction::And { .. }
            | Instruction::Xor { .. }
            | Instruction::Add { .. }
            | Instruction::AddLiteral { .. }
            | Instruction::Sub { .. }
            | Instruction::LeftShift { .. }
            | Instruction::RightShift { .. } => {
                self.execute_alu(instruction, variant);
            },
            Instruction::SetIndex { src } => {
                self.index = src;
            },
            Instruction::AddIndex { src } => {
                let addend = self.variables[src] as usize;
                if self.index > usize::MAX - addend {
                    self.index = addend - (usize::MAX - self.index) - 1;
                    self.variables[0xF] = 1;
                } else {
                    self.index = self.index + addend;
                    self.variables[0xF] = 0;
                }
            },
            Instruction::SkipEq { x, y } => {
                self.skip_if(self.variables[x] == self.variables[y]);
            },
            Instruction::SkipNotEq { x, y } => {
                self.skip_if(self.variables[x] != self.variables[y]);
            },
            Instruction::SkipEqLiteral { x, value } => {
                self.skip_if(self.variables[x] == value);
            },
            Instruction::SkipNotEqLiteral { x, value } => {
                self.skip_if(self.variables[x] != value);
            },
            Instruction::SkipIfKey { .. } => {
                self.skip_if(host.key_down);
            },
            Instruction::SkipIfNotKey { .. } => {
                self.skip_if(!host.key_down);
            },
            Instruction::GetDelay { dest } => {
                self.variables[dest] = self.delay_timer;
            },
            Instruction::SetDelay { src } => {
                self.delay_timer = self.variables[src];
            },
            Instruction::SetSound { src } => {
                self.sound_timer = self.variables[src];
            },
            Instruction::GetKey { dest } => {
                match host.released {
                    Some(key) => {
                        self.variables[dest] = key;
                    },
                    None => {
                        self.pc -= 2;
                    },
                }
            },
            Instruction::SetIndexFont { src, big } => {
                let value = self.variables[src];
                assert(value & 0x0F == value % 16) by (bit_vector);
                let character = (value & 0x0F) as usize;
                if big {
                    self.index = BIGFONT_ADDRESS + character * BIGFONT_WIDTH;
                } else {
                    self.index = FONT_ADDRESS + character * FONT_WIDTH;
                }
            },
            Instruction::DecimalConversion { src } => {
                self.store_decimal(src);
            },
            Instruction::StoreMemory { registers } => {
                self.store_registers(registers);
            },
            Instruction::LoadMemory { registers } => {
                self.load_registers(registers);
            },
            Instruction::Random { x, mask } => {
                self.variables[x] = host.random & mask;
            },
            _ => {},
        }
        assert(self@ =~= cpu_step(old(self)@, instruction, host, variant));
        Ok(())
    }

    /// Fetches the opcode at the program counter, moves past it, and
    /// decodes it.
    pub fn next_instruction(&mut self) -> (fetched: Result<Instruction, InterpreterError>)
        ensures
            fetched == fetch_result(old(self)@),
            final(self)@ == after_fetch(old(self)@),
            fetched matches Ok(instruction) ==> instruction.valid(),
    {
        match self.fetch() {
            Ok(opcode) => match Instruction::new(opcode) {
                Some(instruction) => Ok(instruction),
                None => Err(InterpreterError::UnknownOpcode { opcode, address: self.pc }),
            },
            Err(error) => Err(error),
        }
    }

    /// Tells whether the `bytes` bytes at the index register lie in memory.
    pub fn can_read(&self, bytes: usize) -> (ok: bool)
        ensures
            ok == readable(self@, bytes as int),
    {
        bytes == 0 || (self.index <= MEMORY_SIZE && bytes <= MEMORY_SIZE - self.index)
    }

    /// Reads the rows of a sprite of `count` rows at the index register.
    pub fn sprite_rows(&self, count: usize, wide: bool) -> (rows: Vec<u16>)
        requires
            readable(
                self@,
                if wide {
                    2 * count
                } else {
                    count as int
                },
            ),
        ensures
            rows@ == sprite_words(self@, count as int, wide),
    {
        let mut rows: Vec<u16> = Vec::new();
        let mut k: usize = 0;
        while k < count
            invariant
                k <= count,
                readable(
                    self@,
                    if wide {
                        2 * count
                    } else {
                        count as int
                    },
                ),
                rows@ == sprite_words(self@, k as int, wide),
            decreases count - k,
        {
            let word: u16 = if wide {
                self.memory[self.index + 2 * k] as u16 * 256 + self.memory[self.index + 2 * k
                    + 1] as u16
            } else {
                self.memory[self.index + k] as u16 * 256
            };
            rows.push(word);
            k += 1;
            assert(rows@ =~= sprite_words(self@, k as int, wide));
        }
        rows
    }

    /// Makes this machine a copy of `other`.
    pub fn copy_from(&mut self, other: &Cpu)
        ensures
            final(self)@ == other@,
    {
        self.memory = other.memory;
        self.pc = other.pc;
        self.index = other.index;
        self.stack = other.stack.clone();
        self.delay_timer = other.delay_timer;
        self.sound_timer = other.sound_timer;
        self.variables = other.variables;
        assert(self.stack@ =~= other.stack@);
    }

    /// Points the program counter at `address`.
    pub fn jump_to(&mut self, address: usize)
        ensures
            final(self)@ == (CpuState { pc: address as int, ..old(self)@ }),
    {
        self.pc = address;
    }

    /// Writes `value` to the flag register `VF`.
    pub fn set_flag(&mut self, value: u8)
        ensures
            final(self)@ == old(self)@.set_flag(value),
    {
        self.variables[0xF] = value;
    }

    /// The value of register `V[k]`.
    pub fn variable(&self, k: usize) -> (value: u8)
        requires
            k < 16,
        ensures
            value == self@.variables[k as int],
    {
        self.variables[k]
    }

    /// The byte of memory at `address`.
    pub fn memory_at(&self, address: usize) -> (value: u8)
        requires
            address < MEMORY_SIZE,
        ensures
            value == self@.memory[address as int],
    {
        self.memory[address]
    }

    /// The program counter.
    pub fn pc(&self) -> (pc: usize)
        ensures
            pc == self@.pc,
    {
        self.pc
    }

    /// The index register.
    pub fn index(&self) -> (index: usize)
        ensures
            index == self@.index,
    {
        self.index
    }

    /// The delay timer.
    pub fn delay_timer(&self) -> (value: u8)
        ensures
            value == self@.delay_timer,
    {
        self.delay_timer
    }

    /// The sound timer.
    pub fn sound_timer(&self) -> (value: u8)
        ensures
            value == self@.sound_timer,
    {
        self.sound_timer
    }

    /// How many return addresses the call stack holds.
    pub fn stack_depth(&self) -> (depth: usize)
        ensures
            depth == self@.stack.len(),
    {
        self.stack.len()
    }
}

/// A timer at zero stays at zero, and a timer above zero goes down by
/// exactly one: a tick never takes a timer below zero or round to 255.
pub proof fn timers_saturate(s: CpuState)
    ensures
        s.tick_timers().delay_timer == if s.delay_timer == 0 {
            0
        } else {
            s.delay_timer - 1
        },
        s.tick_timers().sound_timer == if s.sound_timer == 0 {
            0
        } else {
            s.sound_timer - 1
        },
        s.tick_timers().delay_timer <= s.delay_timer,
        s.tick_timers().sound_timer <= s.sound_timer,
        s.tick_timers() == (CpuState {
            delay_timer: s.tick_timers().delay_timer,
            sound_timer: s.tick_timers().sound_timer,
            ..s
        }),
{
}

/// Right after a fetch, the program counter has room for whatever the
/// instruction does to it: a skip can move it on, and a wait for a key can
/// move it back.
pub proof fn fetch_makes_room(s: CpuState, instruction: Instruction, host: HostInput)
    requires
        s.wf(),
        s.can_fetch(),
        instruction.valid(),
        !(instruction is DecimalConversion),
        !(instruction is StoreMemory),
        !(instruction is LoadMemory),
    ensures
        cpu_accepts(after_fetch(s), instruction, host),
{
}

/// A step keeps the state well formed.
pub proof fn step_keeps_well_formed(
    s: CpuState,
    instruction: Instruction,
    host: HostInput,
    variant: Variant,
)
    requires
        s.wf(),
        cpu_accepts(s, instruction, host),
    ensures
        cpu_step(s, instruction, host, variant).wf(),
{
}

/// A wait for a key that finds none undoes the fetch: the machine is back
/// where it was before the instruction was fetched, and fetches it again.
pub proof fn waiting_for_a_key_repeats(s: CpuState, dest: usize, host: HostInput, variant: Variant)
    requires
        s.can_fetch(),
        host.released is None,
    ensures
        cpu_step(after_fetch(s), Instruction::GetKey { dest }, host, variant) == s,
{
}

/// A wait for a key that finds one stores it and moves on: the register
/// holds the key, and nothing else has changed.
pub proof fn key_ends_the_wait(s: CpuState, dest: usize, key: u8, host: HostInput, variant: Variant)
    requires
        host.released == Some(key),
    ensures
        cpu_step(s, Instruction::GetKey { dest }, host, variant) == s.set_var(dest as int, key),
{
}

/// The index that `SetIndexFont` sets points at the glyph of the low
/// nibble of the register: five bytes of the small glyphs, or ten of the
/// big ones, as memory holds them right after construction.
pub proof fn glyphs_are_where_the_index_points(program: Seq<u8>, value: u8, row: int)
    requires
        program.len() <= MAX_PROGRAM_SIZE,
    ensures
        0 <= row < FONT_WIDTH ==> initial_memory(program, false)[glyph_address(value) + row]
            == FONT@[FONT_WIDTH * (value as int % 16) + row],
        0 <= row < FONT_WIDTH ==> initial_memory(program, true)[glyph_address(value) + row]
            == FONT@[FONT_WIDTH * (value as int % 16) + row],
        0 <= row < BIGFONT_WIDTH ==> initial_memory(program, true)[big_glyph_address(value) + row]
            == BIGFONT@[BIGFONT_WIDTH * (value as int % 16) + row],
{
}

/// An instruction takes from the host only what it asks for: the key
/// tests whether the key is down, the wait for a key the released key,
/// `Random` the random byte. Hosts that agree on that give the same step.
pub proof fn host_matters_only_where_asked(
    s: CpuState,
    instruction: Instruction,
    first: HostInput,
    second: HostInput,
    variant: Variant,
)
    requires
        instruction is SkipIfKey || instruction is SkipIfNotKey ==> first.key_down
            == second.key_down,
        instruction is GetKey ==> first.released == second.released,
        instruction is Random ==> first.random == second.random,
    ensures
        cpu_step(s, instruction, first, variant) == cpu_step(s, instruction, second, variant),
{
}

/// What `Random` stores has no bit outside the mask, whatever byte was
/// drawn, and every bit of the byte inside the mask.
pub proof fn random_is_masked(s: CpuState, x: usize, mask: u8, host: HostInput, variant: Variant)
    requires
        s.wf(),
        x < 16,
    ensures
        ({
            let stored = cpu_step(s, Instruction::Random { x, mask }, host, variant).variables[x as int];
            stored & !mask == 0 && stored == host.random & mask
        }),
{
    let byte = host.random;
    assert((byte & mask) & !mask == 0) by (bit_vector);
}

} // verus!
