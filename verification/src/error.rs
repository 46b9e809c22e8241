//! What can go wrong while fetching, decoding or executing.

use crate::instruction::Instruction;
use vstd::prelude::*;

verus! {

/// A failure of one fetch, decode or execute step.
#[derive(PartialEq, Eq, Structural, Clone, Copy, Debug)]
pub enum InterpreterError {
    /// No instruction has this encoding. `address` is the program counter
    /// after the fetch.
    UnknownOpcode { opcode: u16, address: usize },
    /// A `Return` found the call stack empty.
    PopOutOfMain,
    /// The two bytes to fetch do not both lie in memory.
    OutOfMemory,
    /// The instruction does not belong to the CHIP-8 instruction set.
    Chip8InvalidInstruction { instruction: Instruction },
    /// The instruction does not belong to the SUPERCHIP instruction set.
    SuperchipInvalidInstruction { instruction: Instruction },
}

impl InterpreterError {
    /// A fatal error ends the session: the program counter or the call
    /// stack can no longer be trusted. The others leave the machine as it
    /// was before the step, and the host may go on.
    pub open spec fn fatal(self) -> bool {
        self is OutOfMemory || self is PopOutOfMain
    }

    /// Tells whether the session has to stop.
    pub fn is_fatal(&self) -> (stop: bool)
        ensures
            stop == self.fatal(),
    {
        match self {
            InterpreterError::OutOfMemory => true,
            InterpreterError::PopOutOfMain => true,
            _ => false,
        }
    }
}

} // verus!
