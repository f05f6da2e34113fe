use vstd::prelude::*;

verus! {

/// One instruction with its operands taken out of the opcode. `x` and `y`
/// are register numbers.
#[derive(Clone, Copy, Debug, PartialEq, Eq, Structural)]
pub enum Instruction {
    /// `0000`: does nothing.
    Nop,
    /// `00E0`: turns every pixel off.
    ClearScreen,
    /// `00EE`: returns from a subroutine.
    Return,
    /// `1NNN`: continues at `addr`.
    Jump { addr: u16 },
    /// `2NNN`: calls the subroutine at `addr`.
    Call { addr: u16 },
    /// `3XNN`: skips the next instruction if `VX` equals `value`.
    SkipIfEqual { x: u8, value: u8 },
    /// `4XNN`: skips the next instruction if `VX` differs from `value`.
    SkipIfNotEqual { x: u8, value: u8 },
    /// `5XY0`: skips the next instruction if `VX` equals `VY`.
    SkipIfRegistersEqual { x: u8, y: u8 },
    /// `6XNN`: sets `VX` to `value`.
    Load { x: u8, value: u8 },
    /// `7XNN`: adds `value` to `VX`, wrapping, without touching `VF`.
    AddValue { x: u8, value: u8 },
    /// `8XY0`: sets `VX` to `VY`.
    Copy { x: u8, y: u8 },
    /// `8XY1`: sets `VX` to `VX | VY`.
    Or { x: u8, y: u8 },
    /// `8XY2`: sets `VX` to `VX & VY`.
    And { x: u8, y: u8 },
    /// `8XY3`: sets `VX` to `VX ^ VY`.
    Xor { x: u8, y: u8 },
    /// `8XY4`: adds `VY` to `VX`, wrapping; `VF` is 1 on carry, else 0.
    Add { x: u8, y: u8 },
    /// `8XY5`: subtracts `VY` from `VX`, wrapping; `VF` is 0 on borrow, else 1.
    Subtract { x: u8, y: u8 },
    /// `8XY6`: shifts `VX` right by one; `VF` is the bit shifted out.
    ShiftRight { x: u8 },
    /// `8XY7`: sets `VX` to `VY - VX`, wrapping; `VF` is 0 on borrow, else 1.
    SubtractFrom { x: u8, y: u8 },
    /// `8XYE`: shifts `VX` left by one; `VF` is the bit shifted out.
    ShiftLeft { x: u8 },
    /// `9XY0`: skips the next instruction if `VX` differs from `VY`.
    SkipIfRegistersNotEqual { x: u8, y: u8 },
    /// `ANNN`: sets `I` to `addr`.
    LoadIndex { addr: u16 },
    /// `BNNN`: continues at `addr + V0`.
    JumpOffset { addr: u16 },
    /// `CXNN`: sets `VX` to a random byte masked with `mask`.
    Random { x: u8, mask: u8 },
    /// `DXYN`: draws the sprite of `rows` rows at `I` at position (`VX`, `VY`).
    Draw { x: u8, y: u8, rows: u8 },
    /// `EX9E`: skips the next instruction if the key numbered `VX` is down.
    SkipIfKeyDown { x: u8 },
    /// `EXA1`: skips the next instruction if the key numbered `VX` is not down.
    SkipIfKeyUp { x: u8 },
    /// `FX07`: sets `VX` to the delay timer.
    ReadDelay { x: u8 },
    /// `FX0A`: waits for a key and stores its number in `VX`.
    WaitKey { x: u8 },
    /// `FX15`: sets the delay timer to `VX`.
    SetDelay { x: u8 },
    /// `FX18`: sets the sound timer to `VX`.
    SetSound { x: u8 },
    /// `FX1E`: adds `VX` to `I`, wrapping.
    AddToIndex { x: u8 },
    /// `FX29`: sets `I` to the address of the glyph for `VX`.
    Glyph { x: u8 },
    /// `FX33`: writes the decimal digits of `VX` at `I`, `I + 1`, `I + 2`.
    StoreDecimal { x: u8 },
    /// `FX55`: copies `V0` to `VX` into memory from `I` on.
    StoreRegisters { x: u8 },
    /// `FX65`: copies memory from `I` on into `V0` to `VX`.
    LoadRegisters { x: u8 },
}

/// The fields of a 16-bit opcode: four 4-bit digits from the most significant
/// down, the low byte `nn`, and the low twelve bits `nnn`.
pub struct Fields {
    pub family: u8,
    pub x: u8,
    pub y: u8,
    pub n: u8,
    pub nn: u8,
    pub nnn: u16,
}

/// The fields of `opcode`.
pub open spec fn fields(opcode: u16) -> Fields {
    Fields {
        family: (opcode / 4096) as u8,
        x: (opcode / 256 % 16) as u8,
        y: (opcode / 16 % 16) as u8,
        n: (opcode % 16) as u8,
        nn: (opcode % 256) as u8,
        nnn: opcode % 4096,
    }
}

impl Instruction {
    /// Whether every register number is below 16, every address below 4096
    /// and a sprite's height below 16, as in any decoded instruction.
    pub open spec fn wf(self) -> bool {
        match self {
            Instruction::Nop | Instruction::ClearScreen | Instruction::Return => true,
            Instruction::Jump { addr }
            | Instruction::Call { addr }
            | Instruction::LoadIndex { addr }
            | Instruction::JumpOffset { addr } => addr < 4096,
            Instruction::SkipIfEqual { x, .. }
            | Instruction::SkipIfNotEqual { x, .. }
            | Instruction::Load { x, .. }
            | Instruction::AddValue { x, .. }
            | Instruction::ShiftRight { x }
            | Instruction::ShiftLeft { x }
            | Instruction::Random { x, .. }
            | Instruction::SkipIfKeyDown { x }
            | Instruction::SkipIfKeyUp { x }
            | Instruction::ReadDelay { x }
            | Instruction::WaitKey { x }
            | Instruction::SetDelay { x }
            | Instruction::SetSound { x }
            | Instruction::AddToIndex { x }
            | Instruction::Glyph { x }
            | Instruction::StoreDecimal { x }
            | Instruction::StoreRegisters { x }
            | Instruction::LoadRegisters { x } => x < 16,
            Instruction::SkipIfRegistersEqual { x, y }
            | Instruction::Copy { x, y }
            | Instruction::Or { x, y }
            | Instruction::And { x, y }
            | Instruction::Xor { x, y }
            | Instruction::Add { x, y }
            | Instruction::Subtract { x, y }
            | Instruction::SubtractFrom { x, y }
            | Instruction::SkipIfRegistersNotEqual { x, y } => x < 16 && y < 16,
            Instruction::Draw { x, y, rows } => x < 16 && y < 16 && rows < 16,
        }
    }

    /// The instruction that `opcode` encodes, or `None` where it matches no
    /// instruction form.
    pub open spec fn decode_spec(opcode: u16) -> Option<Instruction> {
        let Fields { family, x, y, n, nn, nnn } = fields(opcode);
        if family == 0x0 {
            if opcode == 0x0000 {
                Some(Instruction::Nop)
            } else if opcode == 0x00E0 {
                Some(Instruction::ClearScreen)
            } else if opcode == 0x00EE {
                Some(Instruction::Return)
            } else {
                None
            }
        } else if family == 0x1 {
            Some(Instruction::Jump { addr: nnn })
        } else if family == 0x2 {
            Some(Instruction::Call { addr: nnn })
        } else if family == 0x3 {
            Some(Instruction::SkipIfEqual { x, value: nn })
        } else if family == 0x4 {
            Some(Instruction::SkipIfNotEqual { x, value: nn })
        } else if family == 0x5 {
            if n == 0 {
                Some(Instruction::SkipIfRegistersEqual { x, y })
            } else {
                None
            }
        } else if family == 0x6 {
            Some(Instruction::Load { x, value: nn })
        } else if family == 0x7 {
            Some(Instruction::AddValue { x, value: nn })
        } else if family == 0x8 {
            if n == 0x0 {
                Some(Instruction::Copy { x, y })
            } else if n == 0x1 {
                Some(Instruction::Or { x, y })
            } else if n == 0x2 {
                Some(Instruction::And { x, y })
            } else if n == 0x3 {
                Some(Instruction::Xor { x, y })
            } else if n == 0x4 {
                Some(Instruction::Add { x, y })
            } else if n == 0x5 {
                Some(Instruction::Subtract { x, y })
            } else if n == 0x6 {
                Some(Instruction::ShiftRight { x })
            } else if n == 0x7 {
                Some(Instruction::SubtractFrom { x, y })
            } else if n == 0xE {
                Some(Instruction::ShiftLeft { x })
            } else {
                None
            }
        } else if family == 0x9 {
            if n == 0 {
                Some(Instruction::SkipIfRegistersNotEqual { x, y })
            } else {
                None
            }
        } else if family == 0xA {
            Some(Instruction::LoadIndex { addr: nnn })
        } else if family == 0xB {
            Some(Instruction::JumpOffset { addr: nnn })
        } else if family == 0xC {
            Some(Instruction::Random { x, mask: nn })
        } else if family == 0xD {
            Some(Instruction::Draw { x, y, rows: n })
        } else if family == 0xE {
            if nn == 0x9E {
                Some(Instruction::SkipIfKeyDown { x })
            } else if nn == 0xA1 {
                Some(Instruction::SkipIfKeyUp { x })
            } else {
                None
            }
        } else {
            if nn == 0x07 {
                Some(Instruction::ReadDelay { x })
            } else if nn == 0x0A {
                Some(Instruction::WaitKey { x })
            } else if nn == 0x15 {
                Some(Instruction::SetDelay { x })
            } else if nn == 0x18 {
                Some(Instruction::SetSound { x })
            } else if nn == 0x1E {
                Some(Instruction::AddToIndex { x })
            } else if nn == 0x29 {
                Some(Instruction::Glyph { x })
            } else if nn == 0x33 {
                Some(Instruction::StoreDecimal { x })
            } else if nn == 0x55 {
                Some(Instruction::StoreRegisters { x })
            } else if nn == 0x65 {
                Some(Instruction::LoadRegisters { x })
            } else {
                None
            }
        }
    }

    /// Every decoded instruction is well formed.
    pub proof fn lemma_decoded_wf(opcode: u16)
        ensures
            Instruction::decode_spec(opcode) matches Some(instruction) ==> instruction.wf(),
    {
    }

    /// Splits `opcode` into its four digits and picks the instruction that
    /// they select.
    pub fn decode(opcode: u16) -> (decoded: Option<Instruction>)
        ensures
            decoded == Instruction::decode_spec(opcode),
            decoded matches Some(instruction) ==> instruction.wf(),
    {
        let digit1 = ((opcode & 0xF000) >> 12) as u8;
        let digit2 = ((opcode & 0x0F00) >> 8) as u8;
        let digit3 = ((opcode & 0x00F0) >> 4) as u8;
        let digit4 = (opcode & 0x000F) as u8;
        let nn = (opcode & 0xFF) as u8;
        let nnn = opcode & 0xFFF;
        proof {
            lemma_fields(opcode);
        }
        let x = digit2;
        let y = digit3;
        match (digit1, digit2, digit3, digit4) {
            (0, 0, 0, 0) => Some(Instruction::Nop),
            (0, 0, 0xE, 0) => Some(Instruction::ClearScreen),
            (0, 0, 0xE, 0xE) => Some(Instruction::Return),
            (1, _, _, _) => Some(Instruction::Jump { addr: nnn }),
            (2, _, _, _) => Some(Instruction::Call { addr: nnn }),
            (3, _, _, _) => Some(Instruction::SkipIfEqual { x, value: nn }),
            (4, _, _, _) => Some(Instruction::SkipIfNotEqual { x, value: nn }),
            (5, _, _, 0) => Some(Instruction::SkipIfRegistersEqual { x, y }),
            (6, _, _, _) => Some(Instruction::Load { x, value: nn }),
            (7, _, _, _) => Some(Instruction::AddValue { x, value: nn }),
            (8, _, _, 0) => Some(Instruction::Copy { x, y }),
            (8, _, _, 1) => Some(Instruction::Or { x, y }),
            (8, _, _, 2) => Some(Instruction::And { x, y }),
            (8, _, _, 3) => Some(Instruction::Xor { x, y }),
            (8, _, _, 4) => Some(Instruction::Add { x, y }),
            (8, _, _, 5) => Some(Instruction::Subtract { x, y }),
            (8, _, _, 6) => Some(Instruction::ShiftRight { x }),
            (8, _, _, 7) => Some(Instruction::SubtractFrom { x, y }),
            (8, _, _, 0xE) => Some(Instruction::ShiftLeft { x }),
            (9, _, _, 0) => Some(Instruction::SkipIfRegistersNotEqual { x, y }),
            (0xA, _, _, _) => Some(Instruction::LoadIndex { addr: nnn }),
            (0xB, _, _, _) => Some(Instruction::JumpOffset { addr: nnn }),
            (0xC, _, _, _) => Some(Instruction::Random { x, mask: nn }),
            (0xD, _, _, _) => Some(Instruction::Draw { x, y, rows: digit4 }),
            (0xE, _, 9, 0xE) => Some(Instruction::SkipIfKeyDown { x }),
            (0xE, _, 0xA, 1) => Some(Instruction::SkipIfKeyUp { x }),
            (0xF, _, 0, 7) => Some(Instruction::ReadDelay { x }),
            (0xF, _, 0, 0xA) => Some(Instruction::WaitKey { x }),
            (0xF, _, 1, 5) => Some(Instruction::SetDelay { x }),
            (0xF, _, 1, 8) => Some(Instruction::SetSound { x }),
            (0xF, _, 1, 0xE) => Some(Instruction::AddToIndex { x }),
            (0xF, _, 2, 9) => Some(Instruction::Glyph { x }),
            (0xF, _, 3, 3) => Some(Instruction::StoreDecimal { x }),
            (0xF, _, 5, 5) => Some(Instruction::StoreRegisters { x }),
            (0xF, _, 6, 5) => Some(Instruction::LoadRegisters { x }),
            (_, _, _, _) => None,
        }
    }
}

/// Masking and shifting an opcode yields its fields.
proof fn lemma_fields(opcode: u16)
    by (bit_vector)
    ensures
        (opcode & 0xF000) >> 12 == opcode / 4096,
        (opcode & 0x0F00) >> 8 == opcode / 256 % 16,
        (opcode & 0x00F0) >> 4 == opcode / 16 % 16,
        opcode & 0x000F == opcode % 16,
        opcode & 0xFF == opcode % 256,
        opcode & 0xFFF == opcode % 4096,
        opcode % 256 == (opcode / 16 % 16) * 16 + opcode % 16,
        opcode == (opcode / 4096) * 4096 + (opcode / 256 % 16) * 256 + (opcode % 256),
{
}

} // verus!
