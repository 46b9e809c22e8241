//! Decoded CHIP-8 / SUPERCHIP instructions and the opcode decoder.
//!
//! An opcode is a 16-bit word `k x y n`, written here as four nibbles from
//! the most significant to the least. The decoder dispatches on `k`, then on
//! the remaining nibbles; the specification [`decode`] states the table over
//! plain integer division and remainder, and [`Instruction::new`] computes
//! it with shifts and masks.

use vstd::prelude::*;

verus! {

/// One decoded instruction with its operands.
///
/// Register operands are indices into `V0..VF`, addresses are 12 bits wide,
/// literals are bytes and counts are nibbles; see [`Instruction::valid`].
#[derive(PartialEq, Eq, Structural, Clone, Copy, Debug)]
pub enum Instruction {
    ClearScreen,
    Draw { x: usize, y: usize, sprite_height: usize },
    Jump { address: usize },
    JumpOffset { address: usize, offset_register: usize },
    Call { address: usize },
    Return,
    Assign { dest: usize, src: usize },
    SetLiteral { dest: usize, value: u8 },
    Or { lhs: usize, rhs: usize },
    And { lhs: usize, rhs: usize },
    Xor { lhs: usize, rhs: usize },
    Add { lhs: usize, rhs: usize },
    AddLiteral { dest: usize, value: u8 },
    Sub { lhs: usize, rhs: usize, dest: usize },
    LeftShift { lhs: usize, rhs: usize },
    RightShift { lhs: usize, rhs: usize },
    SetIndex { src: usize },
    AddIndex { src: usize },
    SkipEq { x: usize, y: usize },
    SkipNotEq { x: usize, y: usize },
    SkipEqLiteral { x: usize, value: u8 },
    SkipNotEqLiteral { x: usize, value: u8 },
    SkipIfKey { key_register: usize },
    SkipIfNotKey { key_register: usize },
    GetDelay { dest: usize },
    SetDelay { src: usize },
    SetSound { src: usize },
    GetKey { dest: usize },
    SetIndexFont { src: usize, big: bool },
    DecimalConversion { src: usize },
    StoreMemory { registers: usize },
    LoadMemory { registers: usize },
    Random { x: usize, mask: u8 },
    Hires,
    Lores,
    ScrollRight,
    ScrollLeft,
    ScrollDown { amount: usize },
    SaveFlags { x: usize },
    LoadFlags { x: usize },
    Exit,
}

/// The most significant nibble of an opcode: its family.
pub open spec fn opcode_family(opcode: u16) -> int {
    opcode as int / 0x1000
}

/// The second nibble, `x`.
pub open spec fn opcode_x(opcode: u16) -> int {
    (opcode as int / 0x100) % 0x10
}

/// The third nibble, `y`.
pub open spec fn opcode_y(opcode: u16) -> int {
    (opcode as int / 0x10) % 0x10
}

/// The least significant nibble, `n`.
pub open spec fn opcode_n(opcode: u16) -> int {
    opcode as int % 0x10
}

/// The low byte, `nn`.
pub open spec fn opcode_nn(opcode: u16) -> int {
    opcode as int % 0x100
}

/// The low twelve bits, `nnn`.
pub open spec fn opcode_nnn(opcode: u16) -> int {
    opcode as int % 0x1000
}

/// Family `0`: the literal opcodes, and `00Cn`.
pub open spec fn decode_system(opcode: u16) -> Option<Instruction> {
    if opcode == 0x00E0 {
        Some(Instruction::ClearScreen)
    } else if opcode == 0x00EE {
        Some(Instruction::Return)
    } else if opcode == 0x00FF {
        Some(Instruction::Hires)
    } else if opcode == 0x00FE {
        Some(Instruction::Lores)
    } else if opcode == 0x00FB {
        Some(Instruction::ScrollRight)
    } else if opcode == 0x00FC {
        Some(Instruction::ScrollLeft)
    } else if opcode == 0x00FD {
        Some(Instruction::Exit)
    } else if opcode_x(opcode) == 0 && opcode_y(opcode) == 0xC {
        Some(Instruction::ScrollDown { amount: opcode_n(opcode) as usize })
    } else {
        None
    }
}

/// Family `8`: register-to-register arithmetic, selected by `n`.
pub open spec fn decode_alu(opcode: u16) -> Option<Instruction> {
    let lhs = opcode_x(opcode) as usize;
    let rhs = opcode_y(opcode) as usize;
    let op = opcode_n(opcode);
    if op == 0x0 {
        Some(Instruction::Assign { dest: lhs, src: rhs })
    } else if op == 0x1 {
        Some(Instruction::Or { lhs, rhs })
    } else if op == 0x2 {
        Some(Instruction::And { lhs, rhs })
    } else if op == 0x3 {
        Some(Instruction::Xor { lhs, rhs })
    } else if op == 0x4 {
        Some(Instruction::Add { lhs, rhs })
    } else if op == 0x5 {
        Some(Instruction::Sub { lhs, rhs, dest: lhs })
    } else if op == 0x6 {
        Some(Instruction::RightShift { lhs, rhs })
    } else if op == 0x7 {
        Some(Instruction::Sub { lhs: rhs, rhs: lhs, dest: lhs })
    } else if op == 0xE {
        Some(Instruction::LeftShift { lhs, rhs })
    } else {
        None
    }
}

/// Family `E`: the two key tests, selected by `nn`.
pub open spec fn decode_key(opcode: u16) -> Option<Instruction> {
    let key_register = opcode_x(opcode) as usize;
    let op = opcode_nn(opcode);
    if op == 0x9E {
        Some(Instruction::SkipIfKey { key_register })
    } else if op == 0xA1 {
        Some(Instruction::SkipIfNotKey { key_register })
    } else {
        None
    }
}

/// Family `F`: timers, index arithmetic, fonts and block transfers, selected
/// by `nn`.
pub open spec fn decode_misc(opcode: u16) -> Option<Instruction> {
    let x = opcode_x(opcode) as usize;
    let op = opcode_nn(opcode);
    if op == 0x07 {
        Some(Instruction::GetDelay { dest: x })
    } else if op == 0x0A {
        Some(Instruction::GetKey { dest: x })
    } else if op == 0x15 {
        Some(Instruction::SetDelay { src: x })
    } else if op == 0x18 {
        Some(Instruction::SetSound { src: x })
    } else if op == 0x1E {
        Some(Instruction::AddIndex { src: x })
    } else if op == 0x29 {
        Some(Instruction::SetIndexFont { src: x, big: false })
    } else if op == 0x30 {
        Some(Instruction::SetIndexFont { src: x, big: true })
    } else if op == 0x33 {
        Some(Instruction::DecimalConversion { src: x })
    } else if op == 0x55 {
        Some(Instruction::StoreMemory { registers: x })
    } else if op == 0x65 {
        Some(Instruction::LoadMemory { registers: x })
    } else if op == 0x75 {
        Some(Instruction::SaveFlags { x })
    } else if op == 0x85 {
        Some(Instruction::LoadFlags { x })
    } else {
        None
    }
}

/// What an opcode means: the instruction it encodes, or `None` where no
/// instruction has that encoding.
pub open spec fn decode(opcode: u16) -> Option<Instruction> {
    let family = opcode_family(opcode);
    let x = opcode_x(opcode) as usize;
    let y = opcode_y(opcode) as usize;
    let n = opcode_n(opcode) as usize;
    let nn = opcode_nn(opcode) as u8;
    let nnn = opcode_nnn(opcode) as usize;
    if family == 0x0 {
        decode_system(opcode)
    } else if family == 0x1 {
        Some(Instruction::Jump { address: nnn })
    } else if family == 0x2 {
        Some(Instruction::Call { address: nnn })
    } else if family == 0x3 {
        Some(Instruction::SkipEqLiteral { x, value: nn })
    } else if family == 0x4 {
        Some(Instruction::SkipNotEqLiteral { x, value: nn })
    } else if family == 0x5 {
        Some(Instruction::SkipEq { x, y })
    } else if family == 0x6 {
        Some(Instruction::SetLiteral { dest: x, value: nn })
    } else if family == 0x7 {
        Some(Instruction::AddLiteral { dest: x, value: nn })
    } else if family == 0x8 {
        decode_alu(opcode)
    } else if family == 0x9 {
        Some(Instruction::SkipNotEq { x, y })
    } else if family == 0xA {
        Some(Instruction::SetIndex { src: nnn })
    } else if family == 0xB {
        Some(Instruction::JumpOffset { address: nnn, offset_register: x })
    } else if family == 0xC {
        Some(Instruction::Random { x, mask: nn })
    } else if family == 0xD {
        Some(Instruction::Draw { x, y, sprite_height: n })
    } else if family == 0xE {
        decode_key(opcode)
    } else {
        decode_misc(opcode)
    }
}

impl Instruction {
    /// Every operand is in the range its encoding allows: registers below
    /// 16, addresses below 4096, counts below 16.
    pub open spec fn valid(self) -> bool {
        match self {
            Instruction::Draw { x, y, sprite_height } => x < 16 && y < 16 && sprite_height < 16,
            Instruction::Jump { address } => address < 4096,
            Instruction::JumpOffset { address, offset_register } => address < 4096
                && offset_register < 16,
            Instruction::Call { address } => address < 4096,
            Instruction::Assign { dest, src } => dest < 16 && src < 16,
            Instruction::SetLiteral { dest, .. } => dest < 16,
            Instruction::Or { lhs, rhs } => lhs < 16 && rhs < 16,
            Instruction::And { lhs, rhs } => lhs < 16 && rhs < 16,
            Instruction::Xor { lhs, rhs } => lhs < 16 && rhs < 16,
            Instruction::Add { lhs, rhs } => lhs < 16 && rhs < 16,
            Instruction::AddLiteral { dest, .. } => dest < 16,
            Instruction::Sub { lhs, rhs, dest } => lhs < 16 && rhs < 16 && dest < 16,
            Instruction::LeftShift { lhs, rhs } => lhs < 16 && rhs < 16,
            Instruction::RightShift { lhs, rhs } => lhs < 16 && rhs < 16,
            Instruction::SetIndex { src } => src < 4096,
            Instruction::AddIndex { src } => src < 16,
            Instruction::SkipEq { x, y } => x < 16 && y < 16,
            Instruction::SkipNotEq { x, y } => x < 16 && y < 16,
            Instruction::SkipEqLiteral { x, .. } => x < 16,
            Instruction::SkipNotEqLiteral { x, .. } => x < 16,
            Instruction::SkipIfKey { key_register } => key_register < 16,
            Instruction::SkipIfNotKey { key_register } => key_register < 16,
            Instruction::GetDelay { dest } => dest < 16,
            Instruction::SetDelay { src } => src < 16,
            Instruction::SetSound { src } => src < 16,
            Instruction::GetKey { dest } => dest < 16,
            Instruction::SetIndexFont { src, .. } => src < 16,
            Instruction::DecimalConversion { src } => src < 16,
            Instruction::StoreMemory { registers } => registers < 16,
            Instruction::LoadMemory { registers } => registers < 16,
            Instruction::Random { x, .. } => x < 16,
            Instruction::ScrollDown { amount } => amount < 16,
            Instruction::SaveFlags { x } => x < 16,
            Instruction::LoadFlags { x } => x < 16,
            _ => true,
        }
    }

    /// Tells whether every operand is in range.
    pub fn is_valid(&self) -> (ok: bool)
        ensures
            ok == self.valid(),
    {
        match *self {
            Instruction::Draw { x, y, sprite_height } => x < 16 && y < 16 && sprite_height < 16,
            Instruction::Jump { address } => address < 4096,
            Instruction::JumpOffset { address, offset_register } => address < 4096
                && offset_register < 16,
            Instruction::Call { address } => address < 4096,
            Instruction::Assign { dest, src } => dest < 16 && src < 16,
            Instruction::SetLiteral { dest, .. } => dest < 16,
            Instruction::Or { lhs, rhs } => lhs < 16 && rhs < 16,
            Instruction::And { lhs, rhs } => lhs < 16 && rhs < 16,
            Instruction::Xor { lhs, rhs } => lhs < 16 && rhs < 16,
            Instruction::Add { lhs, rhs } => lhs < 16 && rhs < 16,
            Instruction::AddLiteral { dest, .. } => dest < 16,
            Instruction::Sub { lhs, rhs, dest } => lhs < 16 && rhs < 16 && dest < 16,
            Instruction::LeftShift { lhs, rhs } => lhs < 16 && rhs < 16,
            Instruction::RightShift { lhs, rhs } => lhs < 16 && rhs < 16,
            Instruction::SetIndex { src } => src < 4096,
            Instruction::AddIndex { src } => src < 16,
            Instruction::SkipEq { x, y } => x < 16 && y < 16,
            Instruction::SkipNotEq { x, y } => x < 16 && y < 16,
            Instruction::SkipEqLiteral { x, .. } => x < 16,
            Instruction::SkipNotEqLiteral { x, .. } => x < 16,
            Instruction::SkipIfKey { key_register } => key_register < 16,
            Instruction::SkipIfNotKey { key_register } => key_register < 16,
            Instruction::GetDelay { dest } => dest < 16,
            Instruction::SetDelay { src } => src < 16,
            Instruction::SetSound { src } => src < 16,
            Instruction::GetKey { dest } => dest < 16,
            Instruction::SetIndexFont { src, .. } => src < 16,
            Instruction::DecimalConversion { src } => src < 16,
            Instruction::StoreMemory { registers } => registers < 16,
            Instruction::LoadMemory { registers } => registers < 16,
            Instruction::Random { x, .. } => x < 16,
            Instruction::ScrollDown { amount } => amount < 16,
            Instruction::SaveFlags { x } => x < 16,
            Instruction::LoadFlags { x } => x < 16,
            _ => true,
        }
    }

    /// Decodes an opcode.
    ///
    /// The result depends on the opcode alone, and whatever is decoded has
    /// its operands in range.
    pub fn new(opcode: u16) -> (decoded: Option<Instruction>)
        ensures
            decoded == decode(opcode),
            decoded matches Some(instruction) ==> instruction.valid(),
    {
        let family = family(opcode);
        let (x, y, n) = xyn(opcode);
        let (_, nn) = xnn(opcode);
        let address = nnn(opcode);
        match family {
            0x0 => match opcode {
                0x00E0 => Some(Instruction::ClearScreen),
                0x00EE => Some(Instruction::Return),
                0x00FF => Some(Instruction::Hires),
                0x00FE => Some(Instruction::Lores),
                0x00FB => Some(Instruction::ScrollRight),
                0x00FC => Some(Instruction::ScrollLeft),
                0x00FD => Some(Instruction::Exit),
                _ => if x == 0 && y == 0xC {
                    Some(Instruction::ScrollDown { amount: n as usize })
                } else {
                    None
                },
            },
            0x1 => Some(Instruction::Jump { address }),
            0x2 => Some(Instruction::Call { address }),
            0x3 => Some(Instruction::SkipEqLiteral { x, value: nn }),
            0x4 => Some(Instruction::SkipNotEqLiteral { x, value: nn }),
            0x5 => Some(Instruction::SkipEq { x, y }),
            0x6 => Some(Instruction::SetLiteral { dest: x, value: nn }),
            0x7 => Some(Instruction::AddLiteral { dest: x, value: nn }),
            0x8 => match n {
                0x0 => Some(Instruction::Assign { dest: x, src: y }),
                0x1 => Some(Instruction::Or { lhs: x, rhs: y }),
                0x2 => Some(Instruction::And { lhs: x, rhs: y }),
                0x3 => Some(Instruction::Xor { lhs: x, rhs: y }),
                0x4 => Some(Instruction::Add { lhs: x, rhs: y }),
                0x5 => Some(Instruction::Sub { lhs: x, rhs: y, dest: x }),
                0x6 => Some(Instruction::RightShift { lhs: x, rhs: y }),
                0x7 => Some(Instruction::Sub { lhs: y, rhs: x, dest: x }),
                0xE => Some(Instruction::LeftShift { lhs: x, rhs: y }),
                _ => None,
            },
            0x9 => Some(Instruction::SkipNotEq { x, y }),
            0xA => Some(Instruction::SetIndex { src: address }),
            0xB => Some(Instruction::JumpOffset { address, offset_register: x }),
            0xC => Some(Instruction::Random { x, mask: nn }),
            0xD => Some(Instruction::Draw { x, y, sprite_height: n as usize }),
            0xE => match nn {
                0x9E => Some(Instruction::SkipIfKey { key_register: x }),
                0xA1 => Some(Instruction::SkipIfNotKey { key_register: x }),
                _ => None,
            },
            _ => match nn {
                0x07 => Some(Instruction::GetDelay { dest: x }),
                0x0A => Some(Instruction::GetKey { dest: x }),
                0x15 => Some(Instruction::SetDelay { src: x }),
                0x18 => Some(Instruction::SetSound { src: x }),
                0x1E => Some(Instruction::AddIndex { src: x }),
                0x29 => Some(Instruction::SetIndexFont { src: x, big: false }),
                0x30 => Some(Instruction::SetIndexFont { src: x, big: true }),
                0x33 => Some(Instruction::DecimalConversion { src: x }),
                0x55 => Some(Instruction::StoreMemory { registers: x }),
                0x65 => Some(Instruction::LoadMemory { registers: x }),
                0x75 => Some(Instruction::SaveFlags { x }),
                0x85 => Some(Instruction::LoadFlags { x }),
                _ => None,
            },
        }
    }
}

/// The family nibble of an opcode.
pub fn family(opcode: u16) -> (k: u16)
    ensures
        k == opcode_family(opcode),
        k < 16,
{
    assert(opcode >> 12 == opcode / 0x1000 && opcode >> 12 < 16) by (bit_vector);
    opcode >> 12
}

/// Splits an opcode into its `x`, `y` and `n` nibbles.
pub fn xyn(opcode: u16) -> (fields: (usize, usize, u8))
    ensures
        fields.0 == opcode_x(opcode),
        fields.1 == opcode_y(opcode),
        fields.2 == opcode_n(opcode),
{
    assert((opcode & 0x0F00) >> 8 == (opcode / 0x100) % 0x10) by (bit_vector);
    assert((opcode & 0x00F0) >> 4 == (opcode / 0x10) % 0x10) by (bit_vector);
    assert(opcode & 0x000F == opcode % 0x10) by (bit_vector);
    (
        ((opcode & 0x0F00) >> 8) as usize,
        ((opcode & 0x00F0) >> 4) as usize,
        (opcode & 0x000F) as u8,
    )
}

/// Splits an opcode into its `x` nibble and its low byte.
pub fn xnn(opcode: u16) -> (fields: (usize, u8))
    ensures
        fields.0 == opcode_x(opcode),
        fields.1 == opcode_nn(opcode),
{
    assert((opcode & 0x0F00) >> 8 == (opcode / 0x100) % 0x10) by (bit_vector);
    assert(opcode & 0x00FF == opcode % 0x100) by (bit_vector);
    (((opcode & 0x0F00) >> 8) as usize, (opcode & 0x00FF) as u8)
}

/// The low twelve bits of an opcode.
pub fn nnn(opcode: u16) -> (address: usize)
    ensures
        address == opcode_nnn(opcode),
{
    assert(opcode & 0x0FFF == opcode % 0x1000) by (bit_vector);
    (opcode & 0x0FFF) as usize
}

/// Whatever the decoder finds has its operands in range: registers below
/// 16, addresses below 4096, counts below 16.
pub proof fn decoded_operands_are_in_range(opcode: u16)
    ensures
        decode(opcode) matches Some(instruction) ==> instruction.valid(),
{
}

/// `00E0` is `ClearScreen`, and nothing else is.
pub proof fn clear_screen_has_one_encoding(opcode: u16)
    ensures
        decode(opcode) == Some(Instruction::ClearScreen) <==> opcode == 0x00E0,
{
}

} // verus!
