//! The instruction set: what each 16-bit opcode means.
//!
//! An opcode is four nibbles. The first picks the family of the instruction;
//! the others are operands or pick the member of the family. Operands are
//! named as usual: `x` is the second nibble, `y` the third, `n` the fourth,
//! `kk` the low byte and `nnn` the low twelve bits.

use vstd::prelude::*;

verus! {

/// A decoded instruction with its operands. `x` and `y` number registers and
/// are below 16 in whatever `decode` returns.
#[derive(Clone, Copy, Debug, PartialEq, Eq, Structural)]
pub enum Instruction {
    /// `00E0`: clear the display.
    ClearScreen,
    /// `00EE`: return from a subroutine.
    Return,
    /// `1nnn`: jump to `nnn`.
    Jump(u16),
    /// `2nnn`: call the subroutine at `nnn`.
    Call(u16),
    /// `3xkk`: skip the next instruction if `Vx == kk`.
    SkipIfEqual(u8, u8),
    /// `4xkk`: skip the next instruction if `Vx != kk`.
    SkipIfNotEqual(u8, u8),
    /// `5xy0`: skip the next instruction if `Vx == Vy`.
    SkipIfSame(u8, u8),
    /// `6xkk`: `Vx = kk`.
    Load(u8, u8),
    /// `7xkk`: `Vx = Vx + kk`, without a flag.
    AddByte(u8, u8),
    /// `8xy0`: `Vx = Vy`.
    Move(u8, u8),
    /// `8xy1`: `Vx = Vx | Vy`.
    Or(u8, u8),
    /// `8xy2`: `Vx = Vx & Vy`.
    And(u8, u8),
    /// `8xy3`: `Vx = Vx ^ Vy`.
    Xor(u8, u8),
    /// `8xy4`: `Vx = Vx + Vy`, with the carry in `VF`.
    Add(u8, u8),
    /// `8xy5`: `Vx = Vx - Vy`, with `VF` cleared on a borrow.
    Sub(u8, u8),
    /// `8xy6`: `VF` gets the lowest bit of `Vx`, then `Vx` is halved.
    ShiftRight(u8),
    /// `8xy7`: `Vx = Vy - Vx`, with `VF` cleared on a borrow.
    SubFrom(u8, u8),
    /// `8xyE`: `VF` gets `Vx & 0x80`, then `Vx` is doubled.
    ShiftLeft(u8),
    /// `9xy0`: skip the next instruction if `Vx != Vy`.
    SkipIfDifferent(u8, u8),
    /// `Annn`: `I = nnn`.
    LoadIndex(u16),
    /// `Bnnn`: jump to `nnn + V0`.
    JumpOffset(u16),
    /// `Cxkk`: `Vx` gets the next random byte, masked with `kk`.
    Random(u8, u8),
    /// `Dxyn`: draw the `n` bytes at `I` as a sprite at `(Vx, Vy)`.
    Draw(u8, u8, u8),
    /// `Ex9E`: skip the next instruction if the key observed is `Vx`.
    SkipIfKey(u8),
    /// `ExA1`: skip the next instruction if the key observed is not `Vx`.
    SkipIfNotKey(u8),
    /// `Fx07`: `Vx` gets the delay timer.
    ReadDelay(u8),
    /// `Fx0A`: wait for a key and put it in `Vx`.
    WaitKey(u8),
    /// `Fx15`: the delay timer gets `Vx`.
    SetDelay(u8),
    /// `Fx18`: the sound timer gets `Vx`.
    SetSound(u8),
    /// `Fx1E`: `I = I + Vx`.
    AddIndex(u8),
    /// `Fx29`: `I` gets the address of the glyph of the low nibble of `Vx`.
    Glyph(u8),
    /// `Fx33`: the three decimal digits of `Vx` go to memory at `I`.
    Decimal(u8),
    /// `Fx55`: `V0` to `Vx` go to memory at `I`.
    Store(u8),
    /// `Fx65`: `V0` to `Vx` are read from memory at `I`.
    Fill(u8),
    /// Any other opcode: it does nothing.
    Unknown,
}

/// The first nibble of an opcode: the family of the instruction.
pub open spec fn family(opcode: u16) -> int {
    opcode as int / 4096
}

/// The operand `x`: the second nibble.
pub open spec fn operand_x(opcode: u16) -> u8 {
    ((opcode as int / 256) % 16) as u8
}

/// The operand `y`: the third nibble.
pub open spec fn operand_y(opcode: u16) -> u8 {
    ((opcode as int / 16) % 16) as u8
}

/// The operand `n`: the fourth nibble.
pub open spec fn operand_n(opcode: u16) -> u8 {
    (opcode as int % 16) as u8
}

/// The operand `kk`: the low byte.
pub open spec fn operand_kk(opcode: u16) -> u8 {
    (opcode as int % 256) as u8
}

/// The operand `nnn`: the low twelve bits.
pub open spec fn operand_nnn(opcode: u16) -> u16 {
    (opcode as int % 4096) as u16
}

/// The instruction that an opcode stands for.
pub open spec fn decoded(opcode: u16) -> Instruction {
    let x = operand_x(opcode);
    let y = operand_y(opcode);
    let n = operand_n(opcode);
    let kk = operand_kk(opcode);
    let nnn = operand_nnn(opcode);
    let f = family(opcode);
    if opcode == 0x00E0 {
        Instruction::ClearScreen
    } else if opcode == 0x00EE {
        Instruction::Return
    } else if f == 0x1 {
        Instruction::Jump(nnn)
    } else if f == 0x2 {
        Instruction::Call(nnn)
    } else if f == 0x3 {
        Instruction::SkipIfEqual(x, kk)
    } else if f == 0x4 {
        Instruction::SkipIfNotEqual(x, kk)
    } else if f == 0x5 && n == 0 {
        Instruction::SkipIfSame(x, y)
    } else if f == 0x6 {
        Instruction::Load(x, kk)
    } else if f == 0x7 {
        Instruction::AddByte(x, kk)
    } else if f == 0x8 && n == 0x0 {
        Instruction::Move(x, y)
    } else if f == 0x8 && n == 0x1 {
        Instruction::Or(x, y)
    } else if f == 0x8 && n == 0x2 {
        Instruction::And(x, y)
    } else if f == 0x8 && n == 0x3 {
        Instruction::Xor(x, y)
    } else if f == 0x8 && n == 0x4 {
        Instruction::Add(x, y)
    } else if f == 0x8 && n == 0x5 {
        Instruction::Sub(x, y)
    } else if f == 0x8 && n == 0x6 {
        Instruction::ShiftRight(x)
    } else if f == 0x8 && n == 0x7 {
        Instruction::SubFrom(x, y)
    } else if f == 0x8 && n == 0xE {
        Instruction::ShiftLeft(x)
    } else if f == 0x9 && n == 0 {
        Instruction::SkipIfDifferent(x, y)
    } else if f == 0xA {
        Instruction::LoadIndex(nnn)
    } else if f == 0xB {
        Instruction::JumpOffset(nnn)
    } else if f == 0xC {
        Instruction::Random(x, kk)
    } else if f == 0xD {
        Instruction::Draw(x, y, n)
    } else if f == 0xE && kk == 0x9E {
        Instruction::SkipIfKey(x)
    } else if f == 0xE && kk == 0xA1 {
        Instruction::SkipIfNotKey(x)
    } else if f == 0xF && kk == 0x07 {
        Instruction::ReadDelay(x)
    } else if f == 0xF && kk == 0x0A {
        Instruction::WaitKey(x)
    } else if f == 0xF && kk == 0x15 {
        Instruction::SetDelay(x)
    } else if f == 0xF && kk == 0x18 {
        Instruction::SetSound(x)
    } else if f == 0xF && kk == 0x1E {
        Instruction::AddIndex(x)
    } else if f == 0xF && kk == 0x29 {
        Instruction::Glyph(x)
    } else if f == 0xF && kk == 0x33 {
        Instruction::Decimal(x)
    } else if f == 0xF && kk == 0x55 {
        Instruction::Store(x)
    } else if f == 0xF && kk == 0x65 {
        Instruction::Fill(x)
    } else {
        Instruction::Unknown
    }
}

impl Instruction {
    /// The name of the kind of operation that the instruction is.
    pub fn operation_type(&self) -> (name: &'static str)
        ensures
            name@ == operation_name(*self),
    {
        match self {
            Instruction::ClearScreen | Instruction::Draw(_, _, _) => "Display",
            Instruction::Return
            | Instruction::Jump(_)
            | Instruction::Call(_)
            | Instruction::JumpOffset(_) => "Flow",
            Instruction::SkipIfEqual(_, _)
            | Instruction::SkipIfNotEqual(_, _)
            | Instruction::SkipIfSame(_, _)
            | Instruction::SkipIfDifferent(_, _) => "Cond",
            Instruction::Load(_, _) | Instruction::AddByte(_, _) => "Const",
            Instruction::Move(_, _) => "Assig",
            Instruction::Or(_, _)
            | Instruction::And(_, _)
            | Instruction::Xor(_, _)
            | Instruction::ShiftRight(_)
            | Instruction::ShiftLeft(_) => "BitOp",
            Instruction::Add(_, _) | Instruction::Sub(_, _) | Instruction::SubFrom(_, _) => "Math",
            Instruction::LoadIndex(_)
            | Instruction::AddIndex(_)
            | Instruction::Glyph(_)
            | Instruction::Store(_)
            | Instruction::Fill(_) => "MEM",
            Instruction::Random(_, _) => "Rand",
            Instruction::SkipIfKey(_)
            | Instruction::SkipIfNotKey(_)
            | Instruction::WaitKey(_) => "KeyOp",
            Instruction::ReadDelay(_) | Instruction::SetDelay(_) => "Timer",
            Instruction::SetSound(_) => "Sound",
            Instruction::Decimal(_) => "BCD",
            Instruction::Unknown => "Unknown",
        }
    }

    /// Whether the register numbers of the instruction are below 16 and its
    /// address below 4096, as they are in every decoded instruction.
    pub open spec fn well_formed(self) -> bool {
        match self {
            Instruction::ClearScreen | Instruction::Return | Instruction::Unknown => true,
            Instruction::Jump(nnn)
            | Instruction::Call(nnn)
            | Instruction::LoadIndex(nnn)
            | Instruction::JumpOffset(nnn) => nnn < 4096,
            Instruction::SkipIfEqual(x, _)
            | Instruction::SkipIfNotEqual(x, _)
            | Instruction::Load(x, _)
            | Instruction::AddByte(x, _)
            | Instruction::Random(x, _) => x < 16,
            Instruction::SkipIfSame(x, y)
            | Instruction::Move(x, y)
            | Instruction::Or(x, y)
            | Instruction::And(x, y)
            | Instruction::Xor(x, y)
            | Instruction::Add(x, y)
            | Instruction::Sub(x, y)
            | Instruction::SubFrom(x, y)
            | Instruction::SkipIfDifferent(x, y) => x < 16 && y < 16,
            Instruction::Draw(x, y, n) => x < 16 && y < 16 && n < 16,
            Instruction::ShiftRight(x)
            | Instruction::ShiftLeft(x)
            | Instruction::SkipIfKey(x)
            | Instruction::SkipIfNotKey(x)
            | Instruction::ReadDelay(x)
            | Instruction::WaitKey(x)
            | Instruction::SetDelay(x)
            | Instruction::SetSound(x)
            | Instruction::AddIndex(x)
            | Instruction::Glyph(x)
            | Instruction::Decimal(x)
            | Instruction::Store(x)
            | Instruction::Fill(x) => x < 16,
        }
    }
}

/// The name of the kind of operation that an instruction is, for a trace of
/// the run.
pub open spec fn operation_name(instruction: Instruction) -> Seq<char> {
    match instruction {
        Instruction::ClearScreen | Instruction::Draw(_, _, _) => "Display"@,
        Instruction::Return
        | Instruction::Jump(_)
        | Instruction::Call(_)
        | Instruction::JumpOffset(_) => "Flow"@,
        Instruction::SkipIfEqual(_, _)
        | Instruction::SkipIfNotEqual(_, _)
        | Instruction::SkipIfSame(_, _)
        | Instruction::SkipIfDifferent(_, _) => "Cond"@,
        Instruction::Load(_, _) | Instruction::AddByte(_, _) => "Const"@,
        Instruction::Move(_, _) => "Assig"@,
        Instruction::Or(_, _)
        | Instruction::And(_, _)
        | Instruction::Xor(_, _)
        | Instruction::ShiftRight(_)
        | Instruction::ShiftLeft(_) => "BitOp"@,
        Instruction::Add(_, _) | Instruction::Sub(_, _) | Instruction::SubFrom(_, _) => "Math"@,
        Instruction::LoadIndex(_)
        | Instruction::AddIndex(_)
        | Instruction::Glyph(_)
        | Instruction::Store(_)
        | Instruction::Fill(_) => "MEM"@,
        Instruction::Random(_, _) => "Rand"@,
        Instruction::SkipIfKey(_) | Instruction::SkipIfNotKey(_) | Instruction::WaitKey(_) => "KeyOp"@,
        Instruction::ReadDelay(_) | Instruction::SetDelay(_) => "Timer"@,
        Instruction::SetSound(_) => "Sound"@,
        Instruction::Decimal(_) => "BCD"@,
        Instruction::Unknown => "Unknown"@,
    }
}

/// Every opcode decodes to an instruction whose operands are in range.
pub proof fn lemma_decoded_well_formed(opcode: u16)
    ensures
        decoded(opcode).well_formed(),
{
}

/// Decodes an opcode.
pub fn decode(opcode: u16) -> (instruction: Instruction)
    ensures
        instruction == decoded(opcode),
        instruction.well_formed(),
{
    let family: u16 = (opcode & 0xF000) >> 12;
    let x: u8 = ((opcode & 0x0F00) >> 8) as u8;
    let y: u8 = ((opcode & 0x00F0) >> 4) as u8;
    let n: u8 = (opcode & 0x000F) as u8;
    let kk: u8 = (opcode & 0x00FF) as u8;
    let nnn: u16 = opcode & 0x0FFF;
    proof {
        assert((opcode & 0xF000) >> 12 == opcode / 4096) by (bit_vector);
        assert((opcode & 0x0F00) >> 8 == (opcode / 256) % 16) by (bit_vector);
        assert((opcode & 0x00F0) >> 4 == (opcode / 16) % 16) by (bit_vector);
        assert(opcode & 0x000F == opcode % 16) by (bit_vector);
        assert(opcode & 0x00FF == opcode % 256) by (bit_vector);
        assert(opcode & 0x0FFF == opcode % 4096) by (bit_vector);
        lemma_decoded_well_formed(opcode);
    }
    if opcode == 0x00E0 {
        return Instruction::ClearScreen;
    }
    if opcode == 0x00EE {
        return Instruction::Return;
    }
    match family {
        0x1 => Instruction::Jump(nnn),
        0x2 => Instruction::Call(nnn),
        0x3 => Instruction::SkipIfEqual(x, kk),
        0x4 => Instruction::SkipIfNotEqual(x, kk),
        0x5 => if n == 0 {
            Instruction::SkipIfSame(x, y)
        } else {
            Instruction::Unknown
        },
        0x6 => Instruction::Load(x, kk),
        0x7 => Instruction::AddByte(x, kk),
        0x8 => match n {
            0x0 => Instruction::Move(x, y),
            0x1 => Instruction::Or(x, y),
            0x2 => Instruction::And(x, y),
            0x3 => Instruction::Xor(x, y),
            0x4 => Instruction::Add(x, y),
            0x5 => Instruction::Sub(x, y),
            0x6 => Instruction::ShiftRight(x),
            0x7 => Instruction::SubFrom(x, y),
            0xE => Instruction::ShiftLeft(x),
            _ => Instruction::Unknown,
        },
        0x9 => if n == 0 {
            Instruction::SkipIfDifferent(x, y)
        } else {
            Instruction::Unknown
        },
        0xA => Instruction::LoadIndex(nnn),
        0xB => Instruction::JumpOffset(nnn),
        0xC => Instruction::Random(x, kk),
        0xD => Instruction::Draw(x, y, n),
        0xE => match kk {
            0x9E => Instruction::SkipIfKey(x),
            0xA1 => Instruction::SkipIfNotKey(x),
            _ => Instruction::Unknown,
        },
        0xF => match kk {
            0x07 => Instruction::ReadDelay(x),
            0x0A => Instruction::WaitKey(x),
            0x15 => Instruction::SetDelay(x),
            0x18 => Instruction::SetSound(x),
            0x1E => Instruction::AddIndex(x),
            0x29 => Instruction::Glyph(x),
            0x33 => Instruction::Decimal(x),
            0x55 => Instruction::Store(x),
            0x65 => Instruction::Fill(x),
            _ => Instruction::Unknown,
        },
        _ => Instruction::Unknown,
    }
}

} // verus!
