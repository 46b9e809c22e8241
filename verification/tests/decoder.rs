use octarou::instruction::{family, nnn, xnn, xyn, Instruction};
use octarou::operation::Operation;

#[test]
fn fields_are_the_nibbles_of_the_opcode() {
    assert_eq!(family(0xD123), 0xD);
    assert_eq!(xyn(0xD123), (1, 2, 3));
    assert_eq!(xnn(0x6AFE), (0xA, 0xFE));
    assert_eq!(nnn(0x1ABC), 0xABC);
    assert_eq!(xyn(0xFFFF), (15, 15, 15));
    assert_eq!(xyn(0x0000), (0, 0, 0));
}

#[test]
fn literal_opcodes_decode() {
    assert_eq!(Instruction::new(0x00E0), Some(Instruction::ClearScreen));
    assert_eq!(Instruction::new(0x00EE), Some(Instruction::Return));
    assert_eq!(Instruction::new(0x00FF), Some(Instruction::Hires));
    assert_eq!(Instruction::new(0x00FE), Some(Instruction::Lores));
    assert_eq!(Instruction::new(0x00FB), Some(Instruction::ScrollRight));
    assert_eq!(Instruction::new(0x00FC), Some(Instruction::ScrollLeft));
    assert_eq!(Instruction::new(0x00FD), Some(Instruction::Exit));
    assert_eq!(Instruction::new(0x00C0), Some(Instruction::ScrollDown { amount: 0 }));
    assert_eq!(Instruction::new(0x00C7), Some(Instruction::ScrollDown { amount: 7 }));
    assert_eq!(Instruction::new(0x00CF), Some(Instruction::ScrollDown { amount: 15 }));
}

#[test]
fn other_system_opcodes_are_unknown() {
    assert_eq!(Instruction::new(0x0000), None);
    assert_eq!(Instruction::new(0x00E1), None);
    assert_eq!(Instruction::new(0x00FA), None);
    assert_eq!(Instruction::new(0x0123), None);
    assert_eq!(Instruction::new(0x01C3), None);
    assert_eq!(Instruction::new(0x0FE0), None);
}

#[test]
fn jumps_and_calls_decode() {
    assert_eq!(Instruction::new(0x1ABC), Some(Instruction::Jump { address: 0xABC }));
    assert_eq!(Instruction::new(0x2FFF), Some(Instruction::Call { address: 0xFFF }));
    assert_eq!(
        Instruction::new(0xB321),
        Some(Instruction::JumpOffset { address: 0x321, offset_register: 3 })
    );
    assert_eq!(Instruction::new(0xA000), Some(Instruction::SetIndex { src: 0 }));
}

#[test]
fn skips_decode() {
    assert_eq!(Instruction::new(0x3A42), Some(Instruction::SkipEqLiteral { x: 0xA, value: 0x42 }));
    assert_eq!(
        Instruction::new(0x4B00),
        Some(Instruction::SkipNotEqLiteral { x: 0xB, value: 0 })
    );
    assert_eq!(Instruction::new(0x5120), Some(Instruction::SkipEq { x: 1, y: 2 }));
    assert_eq!(Instruction::new(0x512F), Some(Instruction::SkipEq { x: 1, y: 2 }));
    assert_eq!(Instruction::new(0x9EF0), Some(Instruction::SkipNotEq { x: 0xE, y: 0xF }));
    assert_eq!(Instruction::new(0xE19E), Some(Instruction::SkipIfKey { key_register: 1 }));
    assert_eq!(Instruction::new(0xE2A1), Some(Instruction::SkipIfNotKey { key_register: 2 }));
    assert_eq!(Instruction::new(0xE29F), None);
    assert_eq!(Instruction::new(0xE000), None);
}

#[test]
fn literals_decode() {
    assert_eq!(Instruction::new(0x6005), Some(Instruction::SetLiteral { dest: 0, value: 5 }));
    assert_eq!(Instruction::new(0x7003), Some(Instruction::AddLiteral { dest: 0, value: 3 }));
    assert_eq!(Instruction::new(0xC70F), Some(Instruction::Random { x: 7, mask: 0x0F }));
    assert_eq!(
        Instruction::new(0xD125),
        Some(Instruction::Draw { x: 1, y: 2, sprite_height: 5 })
    );
}

#[test]
fn alu_opcodes_decode() {
    assert_eq!(Instruction::new(0x8120), Some(Instruction::Assign { dest: 1, src: 2 }));
    assert_eq!(Instruction::new(0x8121), Some(Instruction::Or { lhs: 1, rhs: 2 }));
    assert_eq!(Instruction::new(0x8122), Some(Instruction::And { lhs: 1, rhs: 2 }));
    assert_eq!(Instruction::new(0x8123), Some(Instruction::Xor { lhs: 1, rhs: 2 }));
    assert_eq!(Instruction::new(0x8124), Some(Instruction::Add { lhs: 1, rhs: 2 }));
    assert_eq!(Instruction::new(0x8125), Some(Instruction::Sub { lhs: 1, rhs: 2, dest: 1 }));
    assert_eq!(Instruction::new(0x8126), Some(Instruction::RightShift { lhs: 1, rhs: 2 }));
    assert_eq!(Instruction::new(0x8127), Some(Instruction::Sub { lhs: 2, rhs: 1, dest: 1 }));
    assert_eq!(Instruction::new(0x812E), Some(Instruction::LeftShift { lhs: 1, rhs: 2 }));
    for n in [0x8u16, 0x9, 0xA, 0xB, 0xC, 0xD, 0xF] {
        assert_eq!(Instruction::new(0x8120 | n), None);
    }
}

#[test]
fn misc_opcodes_decode() {
    assert_eq!(Instruction::new(0xF307), Some(Instruction::GetDelay { dest: 3 }));
    assert_eq!(Instruction::new(0xF30A), Some(Instruction::GetKey { dest: 3 }));
    assert_eq!(Instruction::new(0xF315), Some(Instruction::SetDelay { src: 3 }));
    assert_eq!(Instruction::new(0xF318), Some(Instruction::SetSound { src: 3 }));
    assert_eq!(Instruction::new(0xF31E), Some(Instruction::AddIndex { src: 3 }));
    assert_eq!(Instruction::new(0xF329), Some(Instruction::SetIndexFont { src: 3, big: false }));
    assert_eq!(Instruction::new(0xF330), Some(Instruction::SetIndexFont { src: 3, big: true }));
    assert_eq!(Instruction::new(0xF333), Some(Instruction::DecimalConversion { src: 3 }));
    assert_eq!(Instruction::new(0xF355), Some(Instruction::StoreMemory { registers: 3 }));
    assert_eq!(Instruction::new(0xF365), Some(Instruction::LoadMemory { registers: 3 }));
    assert_eq!(Instruction::new(0xF375), Some(Instruction::SaveFlags { x: 3 }));
    assert_eq!(Instruction::new(0xF385), Some(Instruction::LoadFlags { x: 3 }));
    assert_eq!(Instruction::new(0xF300), None);
    assert_eq!(Instruction::new(0xF3FF), None);
}

#[test]
fn decoding_is_repeatable_and_gives_operands_in_range() {
    let mut known = 0;
    for opcode in 0..=u16::MAX {
        let decoded = Instruction::new(opcode);
        assert_eq!(decoded, Instruction::new(opcode));
        if let Some(instruction) = decoded {
            known += 1;
            assert!(instruction.is_valid());
        }
    }
    // 23 literal opcodes in family 0, 12 whole families, 9 of 16 in family
    // 8, 2 of 256 in family E and 12 of 256 in family F.
    assert_eq!(known, 23 + 12 * 4096 + 9 * 256 + 2 * 16 + 12 * 16);
}

#[test]
fn only_00e0_clears_the_screen() {
    for opcode in 0..=u16::MAX {
        let clears = Instruction::new(opcode) == Some(Instruction::ClearScreen);
        assert_eq!(clears, opcode == 0x00E0);
    }
}

#[test]
fn operands_out_of_range_are_not_valid() {
    assert!(Instruction::Jump { address: 4095 }.is_valid());
    assert!(!Instruction::Jump { address: 4096 }.is_valid());
    assert!(!Instruction::SetLiteral { dest: 16, value: 0 }.is_valid());
    assert!(!Instruction::Draw { x: 0, y: 0, sprite_height: 16 }.is_valid());
    assert!(!Instruction::Sub { lhs: 0, rhs: 0, dest: 16 }.is_valid());
    assert!(!Instruction::ScrollDown { amount: 16 }.is_valid());
    assert!(Instruction::Exit.is_valid());
}

#[test]
fn operations_are_the_chip8_instructions() {
    assert_eq!(Operation::new(0x00E0), Some(Operation::ClearScreen));
    assert_eq!(Operation::new(0x00EE), Some(Operation::Return));
    assert_eq!(Operation::new(0x2345), Some(Operation::Call { address: 0x345 }));
    assert_eq!(
        Operation::new(0xB321),
        Some(Operation::JumpOffset { address: 0x321, offset_register: 0 })
    );
    assert_eq!(Operation::new(0x8126), Some(Operation::RightShift { lhs: 1, rhs: 2 }));
    assert_eq!(Operation::new(0x812E), Some(Operation::LeftShift { lhs: 1, rhs: 2 }));
    assert_eq!(Operation::new(0x8127), Some(Operation::Sub { lhs: 2, rhs: 1, dest: 1 }));
    assert_eq!(Operation::new(0xF329), Some(Operation::SetIndexFont { src: 3 }));
    assert_eq!(Operation::new(0xD125), Some(Operation::Draw { x: 1, y: 2, sprite_height: 5 }));
    for opcode in [0x00FFu16, 0x00FE, 0x00FB, 0x00FC, 0x00FD, 0x00C1, 0xF330, 0xF375, 0xF385] {
        assert!(Instruction::new(opcode).is_some());
        assert_eq!(Operation::new(opcode), None);
    }
    assert_eq!(Operation::new(0xFFFF), None);
}

#[test]
fn operations_and_instructions_convert_both_ways() {
    for opcode in 0..=u16::MAX {
        match (Instruction::new(opcode), Operation::new(opcode)) {
            (Some(Instruction::JumpOffset { address, .. }), Some(operation)) => {
                // CHIP-8 adds V0, whatever register the opcode names.
                assert_eq!(operation, Operation::JumpOffset { address, offset_register: 0 });
                let instruction = Instruction::JumpOffset { address, offset_register: 0 };
                assert_eq!(operation.instruction(), instruction);
            }
            (Some(instruction), Some(operation)) => {
                assert_eq!(operation.instruction(), instruction);
                assert_eq!(Operation::from_instruction(instruction), Some(operation));
            }
            (Some(instruction), None) => {
                assert_eq!(Operation::from_instruction(instruction), None);
            }
            (None, decoded) => assert_eq!(decoded, None),
        }
    }
}
