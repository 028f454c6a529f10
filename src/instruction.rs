use vstd::prelude::*;

verus! {

/// One decoded instruction. `x` and `y` select registers (`0..16`), `kk` is a byte
/// immediate, `nnn` a 12-bit address and `n` a 4-bit row count.
#[derive(Clone, Copy, Debug, PartialEq, Eq, Structural)]
pub enum Instruction {
    /// `00E0`: clear the screen.
    Cls,
    /// `00EE`: return from a subroutine.
    Ret,
    /// `1nnn`: jump to `nnn`.
    Jump { nnn: u16 },
    /// `2nnn`: call the subroutine at `nnn`.
    Call { nnn: u16 },
    /// `3xkk`: skip if `Vx == kk`.
    SkipEqByte { x: u8, kk: u8 },
    /// `4xkk`: skip if `Vx != kk`.
    SkipNeByte { x: u8, kk: u8 },
    /// `5xy0`: skip if `Vx == Vy`.
    SkipEqReg { x: u8, y: u8 },
    /// `6xkk`: `Vx = kk`.
    LoadByte { x: u8, kk: u8 },
    /// `7xkk`: `Vx = Vx + kk`, wrapping, flag untouched.
    AddByte { x: u8, kk: u8 },
    /// `8xy0`: `Vx = Vy`.
    LoadReg { x: u8, y: u8 },
    /// `8xy1`: `Vx = Vx | Vy`.
    Or { x: u8, y: u8 },
    /// `8xy2`: `Vx = Vx & Vy`.
    And { x: u8, y: u8 },
    /// `8xy3`: `Vx = Vx ^ Vy`.
    Xor { x: u8, y: u8 },
    /// `8xy4`: `Vx = Vx + Vy`, `VF` = carry.
    AddReg { x: u8, y: u8 },
    /// `8xy5`: `Vx = Vx - Vy`, `VF` = no borrow.
    Sub { x: u8, y: u8 },
    /// `8xy6`: shift right, `VF` = bit shifted out.
    ShiftRight { x: u8, y: u8 },
    /// `8xy7`: `Vx = Vy - Vx`, `VF` = no borrow.
    SubReversed { x: u8, y: u8 },
    /// `8xyE`: shift left, `VF` = bit shifted out.
    ShiftLeft { x: u8, y: u8 },
    /// `9xy0`: skip if `Vx != Vy`.
    SkipNeReg { x: u8, y: u8 },
    /// `Annn`: `I = nnn`.
    LoadIndex { nnn: u16 },
    /// `Bnnn`: jump to `nnn` plus a register.
    JumpOffset { x: u8, nnn: u16 },
    /// `Cxkk`: `Vx = random & kk`.
    Random { x: u8, kk: u8 },
    /// `Dxyn`: draw an `n`-row sprite from `I` at `(Vx, Vy)`.
    Draw { x: u8, y: u8, n: u8 },
    /// `Ex9E`: skip if key `Vx` is down.
    SkipKeyDown { x: u8 },
    /// `ExA1`: skip if key `Vx` is up.
    SkipKeyUp { x: u8 },
    /// `Fx07`: `Vx = DT`.
    LoadDelay { x: u8 },
    /// `Fx0A`: wait for a key press and put its index in `Vx`.
    WaitKey { x: u8 },
    /// `Fx15`: `DT = Vx`.
    SetDelay { x: u8 },
    /// `Fx18`: `ST = Vx`.
    SetSound { x: u8 },
    /// `Fx1E`: `I = I + Vx`.
    AddIndex { x: u8 },
    /// `Fx29`: `I` = address of the font glyph for digit `Vx`.
    LoadFont { x: u8 },
    /// `Fx33`: store the decimal digits of `Vx` at `I`, `I+1`, `I+2`.
    StoreBcd { x: u8 },
    /// `Fx55`: store `V0..=Vx` at `I..=I+x`.
    StoreRegs { x: u8 },
    /// `Fx65`: load `V0..=Vx` from `I..=I+x`.
    LoadRegs { x: u8 },
}

/// The instruction an opcode encodes, matched on its four nibbles; `None` for an opcode
/// that encodes none.
pub open spec fn decode_spec(op: u16) -> Option<Instruction> {
    let a = op / 4096;
    let x = ((op / 256) % 16) as u8;
    let y = ((op / 16) % 16) as u8;
    let n = (op % 16) as u8;
    let kk = (op % 256) as u8;
    let nnn = op % 4096;
    if a == 0 {
        if op == 0x00E0 {
            Some(Instruction::Cls)
        } else if op == 0x00EE {
            Some(Instruction::Ret)
        } else {
            None
        }
    } else if a == 1 {
        Some(Instruction::Jump { nnn })
    } else if a == 2 {
        Some(Instruction::Call { nnn })
    } else if a == 3 {
        Some(Instruction::SkipEqByte { x, kk })
    } else if a == 4 {
        Some(Instruction::SkipNeByte { x, kk })
    } else if a == 5 {
        if n == 0 {
            Some(Instruction::SkipEqReg { x, y })
        } else {
            None
        }
    } else if a == 6 {
        Some(Instruction::LoadByte { x, kk })
    } else if a == 7 {
        Some(Instruction::AddByte { x, kk })
    } else if a == 8 {
        if n == 0 {
            Some(Instruction::LoadReg { x, y })
        } else if n == 1 {
            Some(Instruction::Or { x, y })
        } else if n == 2 {
            Some(Instruction::And { x, y })
        } else if n == 3 {
            Some(Instruction::Xor { x, y })
        } else if n == 4 {
            Some(Instruction::AddReg { x, y })
        } else if n == 5 {
            Some(Instruction::Sub { x, y })
        } else if n == 6 {
            Some(Instruction::ShiftRight { x, y })
        } else if n == 7 {
            Some(Instruction::SubReversed { x, y })
        } else if n == 0xE {
            Some(Instruction::ShiftLeft { x, y })
        } else {
            None
        }
    } else if a == 9 {
        if n == 0 {
            Some(Instruction::SkipNeReg { x, y })
        } else {
            None
        }
    } else if a == 0xA {
        Some(Instruction::LoadIndex { nnn })
    } else if a == 0xB {
        Some(Instruction::JumpOffset { x, nnn })
    } else if a == 0xC {
        Some(Instruction::Random { x, kk })
    } else if a == 0xD {
        Some(Instruction::Draw { x, y, n })
    } else if a == 0xE {
        if kk == 0x9E {
            Some(Instruction::SkipKeyDown { x })
        } else if kk == 0xA1 {
            Some(Instruction::SkipKeyUp { x })
        } else {
            None
        }
    } else {
        if kk == 0x07 {
            Some(Instruction::LoadDelay { x })
        } else if kk == 0x0A {
            Some(Instruction::WaitKey { x })
        } else if kk == 0x15 {
            Some(Instruction::SetDelay { x })
        } else if kk == 0x18 {
            Some(Instruction::SetSound { x })
        } else if kk == 0x1E {
            Some(Instruction::AddIndex { x })
        } else if kk == 0x29 {
            Some(Instruction::LoadFont { x })
        } else if kk == 0x33 {
            Some(Instruction::StoreBcd { x })
        } else if kk == 0x55 {
            Some(Instruction::StoreRegs { x })
        } else if kk == 0x65 {
            Some(Instruction::LoadRegs { x })
        } else {
            None
        }
    }
}

/// The register and field bounds every decoded instruction keeps.
pub open spec fn fields_in_range(inst: Instruction) -> bool {
    match inst {
        Instruction::Jump { nnn } | Instruction::Call { nnn } | Instruction::LoadIndex { nnn } => nnn < 4096,
        Instruction::JumpOffset { x, nnn } => x < 16 && nnn < 4096,
        Instruction::SkipEqByte { x, .. } | Instruction::SkipNeByte { x, .. }
        | Instruction::LoadByte { x, .. } | Instruction::AddByte { x, .. }
        | Instruction::Random { x, .. } | Instruction::SkipKeyDown { x }
        | Instruction::SkipKeyUp { x } | Instruction::LoadDelay { x }
        | Instruction::WaitKey { x } | Instruction::SetDelay { x }
        | Instruction::SetSound { x } | Instruction::AddIndex { x }
        | Instruction::LoadFont { x } | Instruction::StoreBcd { x }
        | Instruction::StoreRegs { x } | Instruction::LoadRegs { x } => x < 16,
        Instruction::Draw { x, y, n } => x < 16 && y < 16 && n < 16,
        Instruction::SkipEqReg { x, y } | Instruction::LoadReg { x, y } | Instruction::Or { x, y }
        | Instruction::And { x, y } | Instruction::Xor { x, y } | Instruction::AddReg { x, y }
        | Instruction::Sub { x, y } | Instruction::ShiftRight { x, y }
        | Instruction::SubReversed { x, y } | Instruction::ShiftLeft { x, y }
        | Instruction::SkipNeReg { x, y } => x < 16 && y < 16,
        Instruction::Cls | Instruction::Ret => true,
    }
}

/// Decodes a 16-bit opcode; `None` when it matches no instruction.
pub fn decode(op: u16) -> (r: Option<Instruction>)
    ensures
        r == decode_spec(op),
        r matches Some(inst) ==> fields_in_range(inst),
{
    let a = op / 4096;
    let x = ((op / 256) % 16) as u8;
    let y = ((op / 16) % 16) as u8;
    let n = (op % 16) as u8;
    let kk = (op % 256) as u8;
    let nnn = op % 4096;
    if a == 0 {
        if op == 0x00E0 {
            Some(Instruction::Cls)
        } else if op == 0x00EE {
            Some(Instruction::Ret)
        } else {
            None
        }
    } else if a == 1 {
        Some(Instruction::Jump { nnn })
    } else if a == 2 {
        Some(Instruction::Call { nnn })
    } else if a == 3 {
        Some(Instruction::SkipEqByte { x, kk })
    } else if a == 4 {
        Some(Instruction::SkipNeByte { x, kk })
    } else if a == 5 {
        if n == 0 {
            Some(Instruction::SkipEqReg { x, y })
        } else {
            None
        }
    } else if a == 6 {
        Some(Instruction::LoadByte { x, kk })
    } else if a == 7 {
        Some(Instruction::AddByte { x, kk })
    } else if a == 8 {
        if n == 0 {
            Some(Instruction::LoadReg { x, y })
        } else if n == 1 {
            Some(Instruction::Or { x, y })
        } else if n == 2 {
            Some(Instruction::And { x, y })
        } else if n == 3 {
            Some(Instruction::Xor { x, y })
        } else if n == 4 {
            Some(Instruction::AddReg { x, y })
        } else if n == 5 {
            Some(Instruction::Sub { x, y })
        } else if n == 6 {
            Some(Instruction::ShiftRight { x, y })
        } else if n == 7 {
            Some(Instruction::SubReversed { x, y })
        } else if n == 0xE {
            Some(Instruction::ShiftLeft { x, y })
        } else {
            None
        }
    } else if a == 9 {
        if n == 0 {
            Some(Instruction::SkipNeReg { x, y })
        } else {
            None
        }
    } else if a == 0xA {
        Some(Instruction::LoadIndex { nnn })
    } else if a == 0xB {
        Some(Instruction::JumpOffset { x, nnn })
    } else if a == 0xC {
        Some(Instruction::Random { x, kk })
    } else if a == 0xD {
        Some(Instruction::Draw { x, y, n })
    } else if a == 0xE {
        if kk == 0x9E {
            Some(Instruction::SkipKeyDown { x })
        } else if kk == 0xA1 {
            Some(Instruction::SkipKeyUp { x })
        } else {
            None
        }
    } else {
        if kk == 0x07 {
            Some(Instruction::LoadDelay { x })
        } else if kk == 0x0A {
            Some(Instruction::WaitKey { x })
        } else if kk == 0x15 {
            Some(Instruction::SetDelay { x })
        } else if kk == 0x18 {
            Some(Instruction::SetSound { x })
        } else if kk == 0x1E {
            Some(Instruction::AddIndex { x })
        } else if kk == 0x29 {
            Some(Instruction::LoadFont { x })
        } else if kk == 0x33 {
            Some(Instruction::StoreBcd { x })
        } else if kk == 0x55 {
            Some(Instruction::StoreRegs { x })
        } else if kk == 0x65 {
            Some(Instruction::LoadRegs { x })
        } else {
            None
        }
    }
}

} // verus!
