use vstd::prelude::*;

use crate::error::Chip8Error;

verus! {

/// One decoded instruction. `x` and `y` name registers, `nn` is an 8-bit
/// immediate, `nnn` a 12-bit address and `n` a sprite height.
#[derive(Debug, Clone, Copy, PartialEq, Eq, Structural)]
pub enum Instruction {
    ClearScreen,
    Return,
    Jump { nnn: u16 },
    Call { nnn: u16 },
    SkipIfEqImm { x: usize, nn: u8 },
    SkipIfNeImm { x: usize, nn: u8 },
    SkipIfEqReg { x: usize, y: usize },
    LoadImm { x: usize, nn: u8 },
    AddImm { x: usize, nn: u8 },
    Move { x: usize, y: usize },
    Or { x: usize, y: usize },
    And { x: usize, y: usize },
    Xor { x: usize, y: usize },
    AddReg { x: usize, y: usize },
    SubReg { x: usize, y: usize },
    ShiftRight { x: usize },
    SubRev { x: usize, y: usize },
    ShiftLeft { x: usize },
    SkipIfNeReg { x: usize, y: usize },
    SetIndex { nnn: u16 },
    JumpOffset { nnn: u16 },
    Random { x: usize, nn: u8 },
    Draw { x: usize, y: usize, n: usize },
    SkipIfKey { x: usize },
    SkipIfNotKey { x: usize },
    ReadDelay { x: usize },
    WaitKey { x: usize },
    SetDelay { x: usize },
    SetSound { x: usize },
    AddIndex { x: usize },
    FontChar { x: usize },
    StoreBcd { x: usize },
    StoreRegs { x: usize },
    LoadRegs { x: usize },
}

/// The leading nibble of an opcode (bits 15-12).
pub open spec fn op_class(op: u16) -> int {
    op as int / 4096
}

/// The second nibble (bits 11-8): the first register operand.
pub open spec fn op_x(op: u16) -> int {
    (op as int / 256) % 16
}

/// The third nibble (bits 7-4): the second register operand.
pub open spec fn op_y(op: u16) -> int {
    (op as int / 16) % 16
}

/// The last nibble (bits 3-0).
pub open spec fn op_n(op: u16) -> int {
    op as int % 16
}

/// The low byte.
pub open spec fn op_nn(op: u16) -> int {
    op as int % 256
}

/// The low twelve bits.
pub open spec fn op_nnn(op: u16) -> int {
    op as int % 4096
}

/// The instruction that an opcode encodes, or `None` where it encodes none.
pub open spec fn decode_spec(op: u16) -> Option<Instruction> {
    let c = op_class(op);
    let x = op_x(op) as usize;
    let y = op_y(op) as usize;
    let n = op_n(op);
    let nn = op_nn(op) as u8;
    let nnn = op_nnn(op) as u16;
    let low = op_nn(op);
    if c == 0x0 {
        if op == 0x00E0 {
            Some(Instruction::ClearScreen)
        } else if op == 0x00EE {
            Some(Instruction::Return)
        } else {
            None
        }
    } else if c == 0x1 {
        Some(Instruction::Jump { nnn })
    } else if c == 0x2 {
        Some(Instruction::Call { nnn })
    } else if c == 0x3 {
        Some(Instruction::SkipIfEqImm { x, nn })
    } else if c == 0x4 {
        Some(Instruction::SkipIfNeImm { x, nn })
    } else if c == 0x5 {
        if n == 0 { Some(Instruction::SkipIfEqReg { x, y }) } else { None }
    } else if c == 0x6 {
        Some(Instruction::LoadImm { x, nn })
    } else if c == 0x7 {
        Some(Instruction::AddImm { x, nn })
    } else if c == 0x8 {
        if n == 0x0 {
            Some(Instruction::Move { x, y })
        } else if n == 0x1 {
            Some(Instruction::Or { x, y })
        } else if n == 0x2 {
            Some(Instruction::And { x, y })
        } else if n == 0x3 {
            Some(Instruction::Xor { x, y })
        } else if n == 0x4 {
            Some(Instruction::AddReg { x, y })
        } else if n == 0x5 {
            Some(Instruction::SubReg { x, y })
        } else if n == 0x6 {
            Some(Instruction::ShiftRight { x })
        } else if n == 0x7 {
            Some(Instruction::SubRev { x, y })
        } else if n == 0xE {
            Some(Instruction::ShiftLeft { x })
        } else {
            None
        }
    } else if c == 0x9 {
        if n == 0 { Some(Instruction::SkipIfNeReg { x, y }) } else { None }
    } else if c == 0xA {
        Some(Instruction::SetIndex { nnn })
    } else if c == 0xB {
        Some(Instruction::JumpOffset { nnn })
    } else if c == 0xC {
        Some(Instruction::Random { x, nn })
    } else if c == 0xD {
        Some(Instruction::Draw { x, y, n: n as usize })
    } else if c == 0xE {
        if low == 0x9E {
            Some(Instruction::SkipIfKey { x })
        } else if low == 0xA1 {
            Some(Instruction::SkipIfNotKey { x })
        } else {
            None
        }
    } else {
        if low == 0x07 {
            Some(Instruction::ReadDelay { x })
        } else if low == 0x0A {
            Some(Instruction::WaitKey { x })
        } else if low == 0x15 {
            Some(Instruction::SetDelay { x })
        } else if low == 0x18 {
            Some(Instruction::SetSound { x })
        } else if low == 0x1E {
            Some(Instruction::AddIndex { x })
        } else if low == 0x29 {
            Some(Instruction::FontChar { x })
        } else if low == 0x33 {
            Some(Instruction::StoreBcd { x })
        } else if low == 0x55 {
            Some(Instruction::StoreRegs { x })
        } else if low == 0x65 {
            Some(Instruction::LoadRegs { x })
        } else {
            None
        }
    }
}

impl Instruction {
    /// Register operands name one of the sixteen registers, a sprite is at
    /// most fifteen rows high and an address has twelve bits.
    pub open spec fn wf(self) -> bool {
        match self {
            Instruction::Jump { nnn } | Instruction::Call { nnn } | Instruction::SetIndex { nnn }
            | Instruction::JumpOffset { nnn } => nnn < 0x1000,
            Instruction::SkipIfEqImm { x, .. } | Instruction::SkipIfNeImm { x, .. }
            | Instruction::LoadImm { x, .. } | Instruction::AddImm { x, .. }
            | Instruction::Random { x, .. } => x < 16,
            Instruction::SkipIfEqReg { x, y } | Instruction::Move { x, y }
            | Instruction::Or { x, y } | Instruction::And { x, y } | Instruction::Xor { x, y }
            | Instruction::AddReg { x, y } | Instruction::SubReg { x, y }
            | Instruction::SubRev { x, y } | Instruction::SkipIfNeReg { x, y } => x < 16 && y < 16,
            Instruction::Draw { x, y, n } => x < 16 && y < 16 && n < 16,
            Instruction::ShiftRight { x } | Instruction::ShiftLeft { x }
            | Instruction::SkipIfKey { x } | Instruction::SkipIfNotKey { x }
            | Instruction::ReadDelay { x } | Instruction::WaitKey { x }
            | Instruction::SetDelay { x } | Instruction::SetSound { x }
            | Instruction::AddIndex { x } | Instruction::FontChar { x }
            | Instruction::StoreBcd { x } | Instruction::StoreRegs { x }
            | Instruction::LoadRegs { x } => x < 16,
            Instruction::ClearScreen | Instruction::Return => true,
        }
    }

    /// Decodes a 16-bit opcode; an opcode that encodes no instruction is
    /// reported as `UnknownOpcode`.
    pub fn from_opcode(opcode: u16) -> (r: Result<Instruction, Chip8Error>)
        ensures
            match decode_spec(opcode) {
                Some(ins) => r == Ok::<Instruction, Chip8Error>(ins),
                None => r == Err::<Instruction, Chip8Error>(Chip8Error::UnknownOpcode(opcode)),
            },
            r is Ok ==> r->Ok_0.wf(),
    {
        let c: u16 = opcode / 4096;
        let x: usize = ((opcode / 256) % 16) as usize;
        let y: usize = ((opcode / 16) % 16) as usize;
        let n: u16 = opcode % 16;
        let nn: u8 = (opcode % 256) as u8;
        let nnn: u16 = opcode % 4096;
        let decoded: Option<Instruction> = match c {
            0x0 => {
                if opcode == 0x00E0 {
                    Some(Instruction::ClearScreen)
                } else if opcode == 0x00EE {
                    Some(Instruction::Return)
                } else {
                    None
                }
            },
            0x1 => Some(Instruction::Jump { nnn }),
            0x2 => Some(Instruction::Call { nnn }),
            0x3 => Some(Instruction::SkipIfEqImm { x, nn }),
            0x4 => Some(Instruction::SkipIfNeImm { x, nn }),
            0x5 => if n == 0 { Some(Instruction::SkipIfEqReg { x, y }) } else { None },
            0x6 => Some(Instruction::LoadImm { x, nn }),
            0x7 => Some(Instruction::AddImm { x, nn }),
            0x8 => match n {
                0x0 => Some(Instruction::Move { x, y }),
                0x1 => Some(Instruction::Or { x, y }),
                0x2 => Some(Instruction::And { x, y }),
                0x3 => Some(Instruction::Xor { x, y }),
                0x4 => Some(Instruction::AddReg { x, y }),
                0x5 => Some(Instruction::SubReg { x, y }),
                0x6 => Some(Instruction::ShiftRight { x }),
                0x7 => Some(Instruction::SubRev { x, y }),
                0xE => Some(Instruction::ShiftLeft { x }),
                _ => None,
            },
            0x9 => if n == 0 { Some(Instruction::SkipIfNeReg { x, y }) } else { None },
            0xA => Some(Instruction::SetIndex { nnn }),
            0xB => Some(Instruction::JumpOffset { nnn }),
            0xC => Some(Instruction::Random { x, nn }),
            0xD => Some(Instruction::Draw { x, y, n: n as usize }),
            0xE => match nn {
                0x9E => Some(Instruction::SkipIfKey { x }),
                0xA1 => Some(Instruction::SkipIfNotKey { x }),
                _ => None,
            },
            _ => match nn {
                0x07 => Some(Instruction::ReadDelay { x }),
                0x0A => Some(Instruction::WaitKey { x }),
                0x15 => Some(Instruction::SetDelay { x }),
                0x18 => Some(Instruction::SetSound { x }),
                0x1E => Some(Instruction::AddIndex { x }),
                0x29 => Some(Instruction::FontChar { x }),
                0x33 => Some(Instruction::StoreBcd { x }),
                0x55 => Some(Instruction::StoreRegs { x }),
                0x65 => Some(Instruction::LoadRegs { x }),
                _ => None,
            },
        };
        match decoded {
            Some(ins) => Ok(ins),
            None => Err(Chip8Error::UnknownOpcode(opcode)),
        }
    }
}

} // verus!
