use chip8_core::instruction::Instruction;

#[test]
fn decode_fixed_words() {
    assert_eq!(Instruction::decode(0x0000), Some(Instruction::Nop));
    assert_eq!(Instruction::decode(0x00E0), Some(Instruction::ClearScreen));
    assert_eq!(Instruction::decode(0x00EE), Some(Instruction::Return));
}

#[test]
fn decode_forms_with_an_address() {
    assert_eq!(Instruction::decode(0x1ABC), Some(Instruction::Jump { addr: 0xABC }));
    assert_eq!(Instruction::decode(0x2000), Some(Instruction::Call { addr: 0x000 }));
    assert_eq!(Instruction::decode(0x2FFF), Some(Instruction::Call { addr: 0xFFF }));
    assert_eq!(Instruction::decode(0xA123), Some(Instruction::LoadIndex { addr: 0x123 }));
    assert_eq!(Instruction::decode(0xB0F0), Some(Instruction::JumpOffset { addr: 0x0F0 }));
}

#[test]
fn decode_forms_with_a_register_and_a_byte() {
    assert_eq!(Instruction::decode(0x3A12), Some(Instruction::SkipIfEqual { x: 0xA, value: 0x12 }));
    assert_eq!(
        Instruction::decode(0x4BFF),
        Some(Instruction::SkipIfNotEqual { x: 0xB, value: 0xFF })
    );
    assert_eq!(Instruction::decode(0x6C00), Some(Instruction::Load { x: 0xC, value: 0x00 }));
    assert_eq!(Instruction::decode(0x7D9E), Some(Instruction::AddValue { x: 0xD, value: 0x9E }));
    assert_eq!(Instruction::decode(0xCE0F), Some(Instruction::Random { x: 0xE, mask: 0x0F }));
}

#[test]
fn decode_forms_with_two_registers() {
    assert_eq!(
        Instruction::decode(0x5120),
        Some(Instruction::SkipIfRegistersEqual { x: 1, y: 2 })
    );
    assert_eq!(
        Instruction::decode(0x9F00),
        Some(Instruction::SkipIfRegistersNotEqual { x: 0xF, y: 0 })
    );
    assert_eq!(Instruction::decode(0x8AB0), Some(Instruction::Copy { x: 0xA, y: 0xB }));
    assert_eq!(Instruction::decode(0x8AB1), Some(Instruction::Or { x: 0xA, y: 0xB }));
    assert_eq!(Instruction::decode(0x8AB2), Some(Instruction::And { x: 0xA, y: 0xB }));
    assert_eq!(Instruction::decode(0x8AB3), Some(Instruction::Xor { x: 0xA, y: 0xB }));
    assert_eq!(Instruction::decode(0x8AB4), Some(Instruction::Add { x: 0xA, y: 0xB }));
    assert_eq!(Instruction::decode(0x8AB5), Some(Instruction::Subtract { x: 0xA, y: 0xB }));
    assert_eq!(Instruction::decode(0x8AB7), Some(Instruction::SubtractFrom { x: 0xA, y: 0xB }));
    assert_eq!(Instruction::decode(0xD01F), Some(Instruction::Draw { x: 0, y: 1, rows: 0xF }));
    assert_eq!(Instruction::decode(0xDFE0), Some(Instruction::Draw { x: 0xF, y: 0xE, rows: 0 }));
}

#[test]
fn decode_shifts_for_every_second_register() {
    for y in 0..16u16 {
        assert_eq!(Instruction::decode(0x8306 | y << 4), Some(Instruction::ShiftRight { x: 3 }));
        assert_eq!(Instruction::decode(0x830E | y << 4), Some(Instruction::ShiftLeft { x: 3 }));
    }
}

#[test]
fn decode_forms_with_one_register() {
    assert_eq!(Instruction::decode(0xE79E), Some(Instruction::SkipIfKeyDown { x: 7 }));
    assert_eq!(Instruction::decode(0xE7A1), Some(Instruction::SkipIfKeyUp { x: 7 }));
    assert_eq!(Instruction::decode(0xF007), Some(Instruction::ReadDelay { x: 0 }));
    assert_eq!(Instruction::decode(0xF10A), Some(Instruction::WaitKey { x: 1 }));
    assert_eq!(Instruction::decode(0xF215), Some(Instruction::SetDelay { x: 2 }));
    assert_eq!(Instruction::decode(0xF318), Some(Instruction::SetSound { x: 3 }));
    assert_eq!(Instruction::decode(0xF41E), Some(Instruction::AddToIndex { x: 4 }));
    assert_eq!(Instruction::decode(0xF529), Some(Instruction::Glyph { x: 5 }));
    assert_eq!(Instruction::decode(0xF633), Some(Instruction::StoreDecimal { x: 6 }));
    assert_eq!(Instruction::decode(0xF755), Some(Instruction::StoreRegisters { x: 7 }));
    assert_eq!(Instruction::decode(0xFF65), Some(Instruction::LoadRegisters { x: 0xF }));
}

#[test]
fn decode_rejects_words_outside_the_instruction_set() {
    for opcode in [
        0x0001u16, 0x000E, 0x00E1, 0x00EF, 0x01E0, 0x0FFF, 0x5001, 0x5AB8, 0x8AB8, 0x8AB9, 0x8ABA,
        0x8ABB, 0x8ABC, 0x8ABD, 0x8ABF, 0x9AB1, 0x9ABF, 0xE09D, 0xE19F, 0xE0A0, 0xE0A2, 0xE01E,
        0xE0E1, 0xF000, 0xF006, 0xF017, 0xF01F, 0xF028, 0xF032, 0xF054, 0xF064, 0xF075, 0xF0FF,
    ] {
        assert_eq!(Instruction::decode(opcode), None, "{:#06x}", opcode);
    }
}

#[test]
fn decode_accepts_as_many_words_as_the_forms_cover() {
    let accepted = (0..=0xFFFFu16).filter(|&opcode| Instruction::decode(opcode).is_some()).count();
    // 3 fixed words; 10 forms with twelve free bits (1, 2, 3, 4, 6, 7, A, B, C, D);
    // 2 forms with eight free bits (5, 9); 9 forms of 8 with eight free bits;
    // 2 forms of E and 9 forms of F with four free bits.
    assert_eq!(accepted, 3 + 10 * 4096 + 2 * 256 + 9 * 256 + 11 * 16);
}

#[test]
fn decoded_operands_are_in_range() {
    for opcode in 0..=0xFFFFu16 {
        match Instruction::decode(opcode) {
            Some(Instruction::Draw { x, y, rows }) => assert!(x < 16 && y < 16 && rows < 16),
            Some(Instruction::Jump { addr }) | Some(Instruction::Call { addr }) => {
                assert_eq!(addr, opcode & 0x0FFF)
            }
            Some(Instruction::Load { x, value }) => {
                assert_eq!((x as u16, value as u16), ((opcode >> 8) & 0xF, opcode & 0xFF))
            }
            _ => {}
        }
    }
}
