//! The instructions that CHIP-8 itself has, without the SUPERCHIP
//! additions, and their decoder.

use crate::instruction::{decode, Instruction};
use vstd::prelude::*;

verus! {

/// One decoded instruction of the CHIP-8 instruction set.
#[derive(PartialEq, Eq, Structural, Clone, Copy, Debug)]
pub enum Operation {
    ClearScreen,
    Draw { x: usize, y: usize, sprite_height: usize },
    Jump { address: usize },
    JumpOffset { address: usize, offset_register: usize },
    Call { address: usize },
    Return,
    Assign { dest: usize, src: usize },
    SetLiteral { dest: usize, value: u8 },
    Or { lhs: usize, rhs: usize },
    And { lhs: usize, rhs: usize },
    Xor { lhs: usize, rhs: usize },
    Add { lhs: usize, rhs: usize },
    AddLiteral { dest: usize, value: u8 },
    Sub { lhs: usize, rhs: usize, dest: usize },
    LeftShift { lhs: usize, rhs: usize },
    RightShift { lhs: usize, rhs: usize },
    SetIndex { src: usize },
    AddIndex { src: usize },
    SkipEq { x: usize, y: usize },
    SkipNotEq { x: usize, y: usize },
    SkipEqLiteral { x: usize, value: u8 },
    SkipNotEqLiteral { x: usize, value: u8 },
    SkipIfKey { key_register: usize },
    SkipIfNotKey { key_register: usize },
    GetDelay { dest: usize },
    SetDelay { src: usize },
    SetSound { src: usize },
    GetKey { dest: usize },
    SetIndexFont { src: usize },
    DecimalConversion { src: usize },
    StoreMemory { registers: usize },
    LoadMemory { registers: usize },
    Random { x: usize, mask: u8 },
}

/// `instruction` as CHIP-8 reads it: a `JumpOffset` adds `V0`, whatever
/// register the opcode names.
pub open spec fn chip8_form(instruction: Instruction) -> Instruction {
    match instruction {
        Instruction::JumpOffset { address, .. } => Instruction::JumpOffset {
            address,
            offset_register: 0,
        },
        _ => instruction,
    }
}

/// The operation that `instruction` is, or `None` for an instruction that
/// only SUPERCHIP has. The register of a `JumpOffset` is `V0`.
pub open spec fn operation_of(instruction: Instruction) -> Option<Operation> {
    match instruction {
            Instruction::ClearScreen => Some(Operation::ClearScreen),
            Instruction::Draw { x, y, sprite_height } => Some(
                Operation::Draw { x, y, sprite_height },
            ),
            Instruction::Jump { address } => Some(Operation::Jump { address }),
            Instruction::JumpOffset { address, .. } => Some(
                Operation::JumpOffset { address, offset_register: 0 },
            ),
            Instruction::Call { address } => Some(Operation::Call { address }),
            Instruction::Return => Some(Operation::Return),
            Instruction::Assign { dest, src } => Some(Operation::Assign { dest, src }),
            Instruction::SetLiteral { dest, value } => Some(Operation::SetLiteral { dest, value }),
            Instruction::Or { lhs, rhs } => Some(Operation::Or { lhs, rhs }),
            Instruction::And { lhs, rhs } => Some(Operation::And { lhs, rhs }),
            Instruction::Xor { lhs, rhs } => Some(Operation::Xor { lhs, rhs }),
            Instruction::Add { lhs, rhs } => Some(Operation::Add { lhs, rhs }),
            Instruction::AddLiteral { dest, value } => Some(Operation::AddLiteral { dest, value }),
            Instruction::Sub { lhs, rhs, dest } => Some(Operation::Sub { lhs, rhs, dest }),
            Instruction::LeftShift { lhs, rhs } => Some(Operation::LeftShift { lhs, rhs }),
            Instruction::RightShift { lhs, rhs } => Some(Operation::RightShift { lhs, rhs }),
            Instruction::SetIndex { src } => Some(Operation::SetIndex { src }),
            Instruction::AddIndex { src } => Some(Operation::AddIndex { src }),
            Instruction::SkipEq { x, y } => Some(Operation::SkipEq { x, y }),
            Instruction::SkipNotEq { x, y } => Some(Operation::SkipNotEq { x, y }),
            Instruction::SkipEqLiteral { x, value } => Some(Operation::SkipEqLiteral { x, value }),
            Instruction::SkipNotEqLiteral { x, value } => Some(
                Operation::SkipNotEqLiteral { x, value },
            ),
            Instruction::SkipIfKey { key_register } => Some(Operation::SkipIfKey { key_register }),
            Instruction::SkipIfNotKey { key_register } => Some(
                Operation::SkipIfNotKey { key_register },
            ),
            Instruction::GetDelay { dest } => Some(Operation::GetDelay { dest }),
            Instruction::SetDelay { src } => Some(Operation::SetDelay { src }),
            Instruction::SetSound { src } => Some(Operation::SetSound { src }),
            Instruction::GetKey { dest } => Some(Operation::GetKey { dest }),
            Instruction::SetIndexFont { src, big: false } => Some(Operation::SetIndexFont { src }),
            Instruction::DecimalConversion { src } => Some(Operation::DecimalConversion { src }),
            Instruction::StoreMemory { registers } => Some(Operation::StoreMemory { registers }),
            Instruction::LoadMemory { registers } => Some(Operation::LoadMemory { registers }),
            Instruction::Random { x, mask } => Some(Operation::Random { x, mask }),
            _ => None,
    }
}

/// What an opcode means on CHIP-8: the operation it encodes, or `None`
/// where it encodes none.
pub open spec fn decode_operation(opcode: u16) -> Option<Operation> {
    match decode(opcode) {
        Some(instruction) => operation_of(instruction),
        None => None,
    }
}

impl Operation {
    /// The same operation as an [`Instruction`].
    pub open spec fn as_instruction(self) -> Instruction {
        match self {
            Operation::ClearScreen => Instruction::ClearScreen,
            Operation::Draw { x, y, sprite_height } => Instruction::Draw { x, y, sprite_height },
            Operation::Jump { address } => Instruction::Jump { address },
            Operation::JumpOffset { address, offset_register } => {
                Instruction::JumpOffset { address, offset_register }
            },
            Operation::Call { address } => Instruction::Call { address },
            Operation::Return => Instruction::Return,
            Operation::Assign { dest, src } => Instruction::Assign { dest, src },
            Operation::SetLiteral { dest, value } => Instruction::SetLiteral { dest, value },
            Operation::Or { lhs, rhs } => Instruction::Or { lhs, rhs },
            Operation::And { lhs, rhs } => Instruction::And { lhs, rhs },
            Operation::Xor { lhs, rhs } => Instruction::Xor { lhs, rhs },
            Operation::Add { lhs, rhs } => Instruction::Add { lhs, rhs },
            Operation::AddLiteral { dest, value } => Instruction::AddLiteral { dest, value },
            Operation::Sub { lhs, rhs, dest } => Instruction::Sub { lhs, rhs, dest },
            Operation::LeftShift { lhs, rhs } => Instruction::LeftShift { lhs, rhs },
            Operation::RightShift { lhs, rhs } => Instruction::RightShift { lhs, rhs },
            Operation::SetIndex { src } => Instruction::SetIndex { src },
            Operation::AddIndex { src } => Instruction::AddIndex { src },
            Operation::SkipEq { x, y } => Instruction::SkipEq { x, y },
            Operation::SkipNotEq { x, y } => Instruction::SkipNotEq { x, y },
            Operation::SkipEqLiteral { x, value } => Instruction::SkipEqLiteral { x, value },
            Operation::SkipNotEqLiteral { x, value } => Instruction::SkipNotEqLiteral { x, value },
            Operation::SkipIfKey { key_register } => Instruction::SkipIfKey { key_register },
            Operation::SkipIfNotKey { key_register } => Instruction::SkipIfNotKey { key_register },
            Operation::GetDelay { dest } => Instruction::GetDelay { dest },
            Operation::SetDelay { src } => Instruction::SetDelay { src },
            Operation::SetSound { src } => Instruction::SetSound { src },
            Operation::GetKey { dest } => Instruction::GetKey { dest },
            Operation::SetIndexFont { src } => Instruction::SetIndexFont { src, big: false },
            Operation::DecimalConversion { src } => Instruction::DecimalConversion { src },
            Operation::StoreMemory { registers } => Instruction::StoreMemory { registers },
            Operation::LoadMemory { registers } => Instruction::LoadMemory { registers },
            Operation::Random { x, mask } => Instruction::Random { x, mask },
        }
    }

    /// Decodes an opcode.
    ///
    /// The result depends on the opcode alone, and whatever is decoded has
    /// its operands in range.
    pub fn new(opcode: u16) -> (decoded: Option<Operation>)
        ensures
            decoded == decode_operation(opcode),
            decoded matches Some(operation) ==> operation.as_instruction().valid(),
    {
        match Instruction::new(opcode) {
            Some(instruction) => Operation::from_instruction(instruction),
            None => None,
        }
    }

    /// The operation that `instruction` is, or `None` for an instruction
    /// that only SUPERCHIP has. The register of a `JumpOffset` is `V0`.
    pub fn from_instruction(instruction: Instruction) -> (operation: Option<Operation>)
        ensures
            operation == operation_of(instruction),
            operation matches Some(found) ==> found.as_instruction() == chip8_form(instruction),
    {
        match instruction {
            Instruction::ClearScreen => Some(Operation::ClearScreen),
            Instruction::Draw { x, y, sprite_height } => Some(
                Operation::Draw { x, y, sprite_height },
            ),
            Instruction::Jump { address } => Some(Operation::Jump { address }),
            Instruction::JumpOffset { address, .. } => Some(
                Operation::JumpOffset { address, offset_register: 0 },
            ),
            Instruction::Call { address } => Some(Operation::Call { address }),
            Instruction::Return => Some(Operation::Return),
            Instruction::Assign { dest, src } => Some(Operation::Assign { dest, src }),
            Instruction::SetLiteral { dest, value } => Some(Operation::SetLiteral { dest, value }),
            Instruction::Or { lhs, rhs } => Some(Operation::Or { lhs, rhs }),
            Instruction::And { lhs, rhs } => Some(Operation::And { lhs, rhs }),
            Instruction::Xor { lhs, rhs } => Some(Operation::Xor { lhs, rhs }),
            Instruction::Add { lhs, rhs } => Some(Operation::Add { lhs, rhs }),
            Instruction::AddLiteral { dest, value } => Some(Operation::AddLiteral { dest, value }),
            Instruction::Sub { lhs, rhs, dest } => Some(Operation::Sub { lhs, rhs, dest }),
            Instruction::LeftShift { lhs, rhs } => Some(Operation::LeftShift { lhs, rhs }),
            Instruction::RightShift { lhs, rhs } => Some(Operation::RightShift { lhs, rhs }),
            Instruction::SetIndex { src } => Some(Operation::SetIndex { src }),
            Instruction::AddIndex { src } => Some(Operation::AddIndex { src }),
            Instruction::SkipEq { x, y } => Some(Operation::SkipEq { x, y }),
            Instruction::SkipNotEq { x, y } => Some(Operation::SkipNotEq { x, y }),
            Instruction::SkipEqLiteral { x, value } => Some(Operation::SkipEqLiteral { x, value }),
            Instruction::SkipNotEqLiteral { x, value } => Some(
                Operation::SkipNotEqLiteral { x, value },
            ),
            Instruction::SkipIfKey { key_register } => Some(Operation::SkipIfKey { key_register }),
            Instruction::SkipIfNotKey { key_register } => Some(
                Operation::SkipIfNotKey { key_register },
            ),
            Instruction::GetDelay { dest } => Some(Operation::GetDelay { dest }),
            Instruction::SetDelay { src } => Some(Operation::SetDelay { src }),
            Instruction::SetSound { src } => Some(Operation::SetSound { src }),
            Instruction::GetKey { dest } => Some(Operation::GetKey { dest }),
            Instruction::SetIndexFont { src, big: false } => Some(Operation::SetIndexFont { src }),
            Instruction::DecimalConversion { src } => Some(Operation::DecimalConversion { src }),
            Instruction::StoreMemory { registers } => Some(Operation::StoreMemory { registers }),
            Instruction::LoadMemory { registers } => Some(Operation::LoadMemory { registers }),
            Instruction::Random { x, mask } => Some(Operation::Random { x, mask }),
            _ => None,
        }
    }

    /// The same operation as an [`Instruction`].
    pub fn instruction(&self) -> (instruction: Instruction)
        ensures
            instruction == self.as_instruction(),
            operation_of(instruction) matches Some(same) && same.as_instruction() == chip8_form(
                instruction,
            ),
    {
        match *self {
            Operation::ClearScreen => Instruction::ClearScreen,
            Operation::Draw { x, y, sprite_height } => Instruction::Draw { x, y, sprite_height },
            Operation::Jump { address } => Instruction::Jump { address },
            Operation::JumpOffset { address, offset_register } => {
                Instruction::JumpOffset { address, offset_register }
            },
            Operation::Call { address } => Instruction::Call { address },
            Operation::Return => Instruction::Return,
            Operation::Assign { dest, src } => Instruction::Assign { dest, src },
            Operation::SetLiteral { dest, value } => Instruction::SetLiteral { dest, value },
            Operation::Or { lhs, rhs } => Instruction::Or { lhs, rhs },
            Operation::And { lhs, rhs } => Instruction::And { lhs, rhs },
            Operation::Xor { lhs, rhs } => Instruction::Xor { lhs, rhs },
            Operation::Add { lhs, rhs } => Instruction::Add { lhs, rhs },
            Operation::AddLiteral { dest, value } => Instruction::AddLiteral { dest, value },
            Operation::Sub { lhs, rhs, dest } => Instruction::Sub { lhs, rhs, dest },
            Operation::LeftShift { lhs, rhs } => Instruction::LeftShift { lhs, rhs },
            Operation::RightShift { lhs, rhs } => Instruction::RightShift { lhs, rhs },
            Operation::SetIndex { src } => Instruction::SetIndex { src },
            Operation::AddIndex { src } => Instruction::AddIndex { src },
            Operation::SkipEq { x, y } => Instruction::SkipEq { x, y },
            Operation::SkipNotEq { x, y } => Instruction::SkipNotEq { x, y },
            Operation::SkipEqLiteral { x, value } => Instruction::SkipEqLiteral { x, value },
            Operation::SkipNotEqLiteral { x, value } => Instruction::SkipNotEqLiteral { x, value },
            Operation::SkipIfKey { key_register } => Instruction::SkipIfKey { key_register },
            Operation::SkipIfNotKey { key_register } => Instruction::SkipIfNotKey { key_register },
            Operation::GetDelay { dest } => Instruction::GetDelay { dest },
            Operation::SetDelay { src } => Instruction::SetDelay { src },
            Operation::SetSound { src } => Instruction::SetSound { src },
            Operation::GetKey { dest } => Instruction::GetKey { dest },
            Operation::SetIndexFont { src } => Instruction::SetIndexFont { src, big: false },
            Operation::DecimalConversion { src } => Instruction::DecimalConversion { src },
            Operation::StoreMemory { registers } => Instruction::StoreMemory { registers },
            Operation::LoadMemory { registers } => Instruction::LoadMemory { registers },
            Operation::Random { x, mask } => Instruction::Random { x, mask },
        }
    }
}

} // verus!
