use vstd::prelude::*;
use crate::machine::{op_family, op_n, op_nn, op_nnn, op_x, op_y};

verus! {

/// One instruction of the machine with its operands: `x` and `y` name
/// registers, `n`, `nn` and `nnn` are literals of 4, 8 and 12 bits.
#[derive(Clone, Copy, Debug, PartialEq, Eq, Structural)]
pub enum Instruction {
    /// 00E0
    ClearScreen,
    /// 00EE
    Return,
    /// 1NNN
    Jump { nnn: u16 },
    /// 2NNN
    Call { nnn: u16 },
    /// 3XNN
    SkipIfEqual { x: u8, nn: u8 },
    /// 4XNN
    SkipIfNotEqual { x: u8, nn: u8 },
    /// 5XY_
    SkipIfRegistersEqual { x: u8, y: u8 },
    /// 6XNN
    LoadImmediate { x: u8, nn: u8 },
    /// 7XNN
    AddImmediate { x: u8, nn: u8 },
    /// 8XY0
    Assign { x: u8, y: u8 },
    /// 8XY1
    Or { x: u8, y: u8 },
    /// 8XY2
    And { x: u8, y: u8 },
    /// 8XY3
    Xor { x: u8, y: u8 },
    /// 8XY4
    Add { x: u8, y: u8 },
    /// 8XY5
    Subtract { x: u8, y: u8 },
    /// 8XY6
    ShiftRight { x: u8 },
    /// 8XY7
    SubtractReversed { x: u8, y: u8 },
    /// 8XYE
    ShiftLeft { x: u8 },
    /// 9XY_
    SkipIfRegistersNotEqual { x: u8, y: u8 },
    /// ANNN
    LoadIndex { nnn: u16 },
    /// BNNN
    JumpOffset { nnn: u16 },
    /// CXNN
    Random { x: u8, nn: u8 },
    /// DXYN
    Draw { x: u8, y: u8, n: u8 },
    /// EX_E
    SkipIfKeyPressed { x: u8 },
    /// EX_1
    SkipIfKeyNotPressed { x: u8 },
    /// FX07
    ReadDelay { x: u8 },
    /// FX0A
    ReadKey { x: u8 },
    /// FX15
    SetDelay { x: u8 },
    /// FX18
    SetSound { x: u8 },
    /// FX1E
    AddIndex { x: u8 },
    /// FX29
    FontAddress { x: u8 },
    /// FX33
    StoreBcd { x: u8 },
    /// FX55
    DumpRegisters { x: u8 },
    /// FX65
    LoadRegisters { x: u8 },
}

/// The instruction that a word stands for, if any. The top nibble picks
/// the family. The families 0 and F are told apart by the low byte, the
/// families 8 and E by the low nibble.
pub open spec fn decoded(opcode: u16) -> Option<Instruction> {
    let x = op_x(opcode);
    let y = op_y(opcode);
    let n = op_n(opcode);
    let nn = op_nn(opcode);
    let nnn = op_nnn(opcode);
    let family = op_family(opcode);
    if family == 0x0 {
        if nn == 0xE0 {
            Some(Instruction::ClearScreen)
        } else if nn == 0xEE {
            Some(Instruction::Return)
        } else {
            None
        }
    } else if family == 0x1 {
        Some(Instruction::Jump { nnn })
    } else if family == 0x2 {
        Some(Instruction::Call { nnn })
    } else if family == 0x3 {
        Some(Instruction::SkipIfEqual { x, nn })
    } else if family == 0x4 {
        Some(Instruction::SkipIfNotEqual { x, nn })
    } else if family == 0x5 {
        Some(Instruction::SkipIfRegistersEqual { x, y })
    } else if family == 0x6 {
        Some(Instruction::LoadImmediate { x, nn })
    } else if family == 0x7 {
        Some(Instruction::AddImmediate { x, nn })
    } else if family == 0x8 {
        if n == 0x0 {
            Some(Instruction::Assign { x, y })
        } else if n == 0x1 {
            Some(Instruction::Or { x, y })
        } else if n == 0x2 {
            Some(Instruction::And { x, y })
        } else if n == 0x3 {
            Some(Instruction::Xor { x, y })
        } else if n == 0x4 {
            Some(Instruction::Add { x, y })
        } else if n == 0x5 {
            Some(Instruction::Subtract { x, y })
        } else if n == 0x6 {
            Some(Instruction::ShiftRight { x })
        } else if n == 0x7 {
            Some(Instruction::SubtractReversed { x, y })
        } else if n == 0xE {
            Some(Instruction::ShiftLeft { x })
        } else {
            None
        }
    } else if family == 0x9 {
        Some(Instruction::SkipIfRegistersNotEqual { x, y })
    } else if family == 0xA {
        Some(Instruction::LoadIndex { nnn })
    } else if family == 0xB {
        Some(Instruction::JumpOffset { nnn })
    } else if family == 0xC {
        Some(Instruction::Random { x, nn })
    } else if family == 0xD {
        Some(Instruction::Draw { x, y, n })
    } else if family == 0xE {
        if n == 0xE {
            Some(Instruction::SkipIfKeyPressed { x })
        } else if n == 0x1 {
            Some(Instruction::SkipIfKeyNotPressed { x })
        } else {
            None
        }
    } else {
        if nn == 0x07 {
            Some(Instruction::ReadDelay { x })
        } else if nn == 0x0A {
            Some(Instruction::ReadKey { x })
        } else if nn == 0x15 {
            Some(Instruction::SetDelay { x })
        } else if nn == 0x18 {
            Some(Instruction::SetSound { x })
        } else if nn == 0x1E {
            Some(Instruction::AddIndex { x })
        } else if nn == 0x29 {
            Some(Instruction::FontAddress { x })
        } else if nn == 0x33 {
            Some(Instruction::StoreBcd { x })
        } else if nn == 0x55 {
            Some(Instruction::DumpRegisters { x })
        } else if nn == 0x65 {
            Some(Instruction::LoadRegisters { x })
        } else {
            None
        }
    }
}

/// Decodes an instruction word.
pub fn decode(opcode: u16) -> (instruction: Option<Instruction>)
    ensures
        instruction == decoded(opcode),
        instruction matches Some(ins) ==> ins.well_formed(),
{
    assert((opcode & 0x0F00) >> 8 == (opcode / 256) % 16 && (opcode & 0x00F0) >> 4 == (opcode / 16)
        % 16 && opcode & 0x000F == opcode % 16 && opcode & 0x00FF == opcode % 256 && opcode
        & 0x0FFF == opcode % 4096 && opcode & 0xF000 == (opcode / 4096) * 4096) by (bit_vector);
    let x = ((opcode & 0x0F00) >> 8) as u8;
    let y = ((opcode & 0x00F0) >> 4) as u8;
    let n = (opcode & 0x000F) as u8;
    let nn = (opcode & 0x00FF) as u8;
    let nnn = opcode & 0x0FFF;
    match opcode & 0xF000 {
        0x0000 => match opcode & 0x00FF {
            0x00E0 => Some(Instruction::ClearScreen),
            0x00EE => Some(Instruction::Return),
            _ => None,
        },
        0x1000 => Some(Instruction::Jump { nnn }),
        0x2000 => Some(Instruction::Call { nnn }),
        0x3000 => Some(Instruction::SkipIfEqual { x, nn }),
        0x4000 => Some(Instruction::SkipIfNotEqual { x, nn }),
        0x5000 => Some(Instruction::SkipIfRegistersEqual { x, y }),
        0x6000 => Some(Instruction::LoadImmediate { x, nn }),
        0x7000 => Some(Instruction::AddImmediate { x, nn }),
        0x8000 => match opcode & 0x000F {
            0x0000 => Some(Instruction::Assign { x, y }),
            0x0001 => Some(Instruction::Or { x, y }),
            0x0002 => Some(Instruction::And { x, y }),
            0x0003 => Some(Instruction::Xor { x, y }),
            0x0004 => Some(Instruction::Add { x, y }),
            0x0005 => Some(Instruction::Subtract { x, y }),
            0x0006 => Some(Instruction::ShiftRight { x }),
            0x0007 => Some(Instruction::SubtractReversed { x, y }),
            0x000E => Some(Instruction::ShiftLeft { x }),
            _ => None,
        },
        0x9000 => Some(Instruction::SkipIfRegistersNotEqual { x, y }),
        0xA000 => Some(Instruction::LoadIndex { nnn }),
        0xB000 => Some(Instruction::JumpOffset { nnn }),
        0xC000 => Some(Instruction::Random { x, nn }),
        0xD000 => Some(Instruction::Draw { x, y, n }),
        0xE000 => match opcode & 0x000F {
            0x000E => Some(Instruction::SkipIfKeyPressed { x }),
            0x0001 => Some(Instruction::SkipIfKeyNotPressed { x }),
            _ => None,
        },
        0xF000 => match opcode & 0x00FF {
            0x0007 => Some(Instruction::ReadDelay { x }),
            0x000A => Some(Instruction::ReadKey { x }),
            0x0015 => Some(Instruction::SetDelay { x }),
            0x0018 => Some(Instruction::SetSound { x }),
            0x001E => Some(Instruction::AddIndex { x }),
            0x0029 => Some(Instruction::FontAddress { x }),
            0x0033 => Some(Instruction::StoreBcd { x }),
            0x0055 => Some(Instruction::DumpRegisters { x }),
            0x0065 => Some(Instruction::LoadRegisters { x }),
            _ => None,
        },
        _ => None,
    }
}

impl Instruction {
    /// Register operands name one of the sixteen registers, a nibble is
    /// below 16 and an address below 4096. Every decoded instruction is so.
    pub open spec fn well_formed(self) -> bool {
        match self {
            Instruction::ClearScreen | Instruction::Return => true,
            Instruction::Jump { nnn }
            | Instruction::Call { nnn }
            | Instruction::LoadIndex { nnn }
            | Instruction::JumpOffset { nnn } => nnn < 4096,
            Instruction::SkipIfEqual { x, nn }
            | Instruction::SkipIfNotEqual { x, nn }
            | Instruction::LoadImmediate { x, nn }
            | Instruction::AddImmediate { x, nn }
            | Instruction::Random { x, nn } => x < 16,
            Instruction::SkipIfRegistersEqual { x, y }
            | Instruction::Assign { x, y }
            | Instruction::Or { x, y }
            | Instruction::And { x, y }
            | Instruction::Xor { x, y }
            | Instruction::Add { x, y }
            | Instruction::Subtract { x, y }
            | Instruction::SubtractReversed { x, y }
            | Instruction::SkipIfRegistersNotEqual { x, y } => x < 16 && y < 16,
            Instruction::Draw { x, y, n } => x < 16 && y < 16 && n < 16,
            Instruction::ShiftRight { x }
            | Instruction::ShiftLeft { x }
            | Instruction::SkipIfKeyPressed { x }
            | Instruction::SkipIfKeyNotPressed { x }
            | Instruction::ReadDelay { x }
            | Instruction::ReadKey { x }
            | Instruction::SetDelay { x }
            | Instruction::SetSound { x }
            | Instruction::AddIndex { x }
            | Instruction::FontAddress { x }
            | Instruction::StoreBcd { x }
            | Instruction::DumpRegisters { x }
            | Instruction::LoadRegisters { x } => x < 16,
        }
    }
}

} // verus!
