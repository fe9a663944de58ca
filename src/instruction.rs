use vstd::prelude::*;

verus! {

/// One decoded instruction. Register operands `x` and `y` are register
/// numbers (0 to 15); `addr` is a 12-bit address; `kk` a byte literal; `n` the
/// height of a sprite in rows.
#[derive(Clone, Copy, Debug, PartialEq, Eq, Structural)]
pub enum Instruction {
    /// `0000`: stop the machine.
    Halt,
    /// `00E0`: turn every pixel off.
    ClearScreen,
    /// `00EE`: return from a subroutine.
    Return,
    /// `1nnn`: jump to `addr`.
    Jump { addr: u16 },
    /// `2nnn`: call the subroutine at `addr`.
    Call { addr: u16 },
    /// `3xkk`: skip the next instruction when register `x` equals `kk`.
    SkipEq { x: u8, kk: u8 },
    /// `4xkk`: skip the next instruction when register `x` differs from `kk`.
    SkipNeq { x: u8, kk: u8 },
    /// `5xy0`: skip the next instruction when registers `x` and `y` are equal.
    SkipEqRegisters { x: u8, y: u8 },
    /// `6xkk`: register `x` = `kk`.
    Load { x: u8, kk: u8 },
    /// `7xkk`: register `x` += `kk`, wrapping, flag untouched.
    AddImmediate { x: u8, kk: u8 },
    /// `8xy0`: register `x` = register `y`.
    Move { x: u8, y: u8 },
    /// `8xy1`: register `x` |= register `y`.
    Or { x: u8, y: u8 },
    /// `8xy2`: register `x` &= register `y`.
    And { x: u8, y: u8 },
    /// `8xy3`: register `x` ^= register `y`.
    Xor { x: u8, y: u8 },
    /// `8xy4`: register `x` += register `y`, carry into the flag register.
    AddRegisters { x: u8, y: u8 },
    /// `8xy5`: register `x` -= register `y`, no-borrow into the flag register.
    Sub { x: u8, y: u8 },
    /// `8xy6`: register `x` >>= 1, the bit shifted out into the flag register.
    ShiftRight { x: u8 },
    /// `8xy7`: register `x` = register `y` - register `x`, no-borrow into the
    /// flag register.
    SubReverse { x: u8, y: u8 },
    /// `8xyE`: register `x` <<= 1, the bit shifted out into the flag register.
    ShiftLeft { x: u8 },
    /// `9xy0`: skip the next instruction when registers `x` and `y` differ.
    SkipNeqRegisters { x: u8, y: u8 },
    /// `Annn`: index register = `addr`.
    SetIndex { addr: u16 },
    /// `Bnnn`: jump to `addr` + register `x`.
    JumpOffset { x: u8, addr: u16 },
    /// `Cxkk`: register `x` = a random byte masked by `kk`.
    Random { x: u8, kk: u8 },
    /// `Dxyn`: draw the `n`-row sprite at the index register at the position
    /// held in registers `x` and `y`.
    Draw { x: u8, y: u8, n: u8 },
}

/// Top nibble: the instruction class.
pub open spec fn field_c(op: u16) -> u8 {
    ((op >> 12u16) & 0xFu16) as u8
}

/// Second nibble: first register operand.
pub open spec fn field_x(op: u16) -> u8 {
    ((op >> 8u16) & 0xFu16) as u8
}

/// Third nibble: second register operand.
pub open spec fn field_y(op: u16) -> u8 {
    ((op >> 4u16) & 0xFu16) as u8
}

/// Low nibble: sub-opcode selector or sprite height.
pub open spec fn field_d(op: u16) -> u8 {
    (op & 0xFu16) as u8
}

/// Low 12 bits: an address.
pub open spec fn field_nnn(op: u16) -> u16 {
    op & 0xFFFu16
}

/// Low 8 bits: a byte literal.
pub open spec fn field_kk(op: u16) -> u8 {
    (op & 0xFFu16) as u8
}

/// The instruction that `op` encodes, if any.
pub open spec fn spec_decode(op: u16) -> Option<Instruction> {
    let c = field_c(op);
    let x = field_x(op);
    let y = field_y(op);
    let d = field_d(op);
    let nnn = field_nnn(op);
    let kk = field_kk(op);
    if op == 0x0000 {
        Some(Instruction::Halt)
    } else if op == 0x00E0 {
        Some(Instruction::ClearScreen)
    } else if op == 0x00EE {
        Some(Instruction::Return)
    } else if c == 0x1 {
        Some(Instruction::Jump { addr: nnn })
    } else if c == 0x2 {
        Some(Instruction::Call { addr: nnn })
    } else if c == 0x3 {
        Some(Instruction::SkipEq { x, kk })
    } else if c == 0x4 {
        Some(Instruction::SkipNeq { x, kk })
    } else if c == 0x5 && d == 0x0 {
        Some(Instruction::SkipEqRegisters { x, y })
    } else if c == 0x6 {
        Some(Instruction::Load { x, kk })
    } else if c == 0x7 {
        Some(Instruction::AddImmediate { x, kk })
    } else if c == 0x8 && d == 0x0 {
        Some(Instruction::Move { x, y })
    } else if c == 0x8 && d == 0x1 {
        Some(Instruction::Or { x, y })
    } else if c == 0x8 && d == 0x2 {
        Some(Instruction::And { x, y })
    } else if c == 0x8 && d == 0x3 {
        Some(Instruction::Xor { x, y })
    } else if c == 0x8 && d == 0x4 {
        Some(Instruction::AddRegisters { x, y })
    } else if c == 0x8 && d == 0x5 {
        Some(Instruction::Sub { x, y })
    } else if c == 0x8 && d == 0x6 {
        Some(Instruction::ShiftRight { x })
    } else if c == 0x8 && d == 0x7 {
        Some(Instruction::SubReverse { x, y })
    } else if c == 0x8 && d == 0xE {
        Some(Instruction::ShiftLeft { x })
    } else if c == 0x9 && d == 0x0 {
        Some(Instruction::SkipNeqRegisters { x, y })
    } else if c == 0xA {
        Some(Instruction::SetIndex { addr: nnn })
    } else if c == 0xB {
        Some(Instruction::JumpOffset { x, addr: nnn })
    } else if c == 0xC {
        Some(Instruction::Random { x, kk })
    } else if c == 0xD {
        Some(Instruction::Draw { x, y, n: d })
    } else {
        None
    }
}

impl Instruction {
    /// Register operands name one of the sixteen registers, addresses fit in
    /// 12 bits and sprite heights in 4.
    pub open spec fn wf(self) -> bool {
        match self {
            Instruction::Jump { addr } => addr < 0x1000,
            Instruction::Call { addr } => addr < 0x1000,
            Instruction::SetIndex { addr } => addr < 0x1000,
            Instruction::SkipEq { x, kk } => x < 16,
            Instruction::SkipNeq { x, kk } => x < 16,
            Instruction::SkipEqRegisters { x, y } => x < 16 && y < 16,
            Instruction::Load { x, kk } => x < 16,
            Instruction::AddImmediate { x, kk } => x < 16,
            Instruction::Move { x, y } => x < 16 && y < 16,
            Instruction::Or { x, y } => x < 16 && y < 16,
            Instruction::And { x, y } => x < 16 && y < 16,
            Instruction::Xor { x, y } => x < 16 && y < 16,
            Instruction::AddRegisters { x, y } => x < 16 && y < 16,
            Instruction::Sub { x, y } => x < 16 && y < 16,
            Instruction::ShiftRight { x } => x < 16,
            Instruction::SubReverse { x, y } => x < 16 && y < 16,
            Instruction::ShiftLeft { x } => x < 16,
            Instruction::SkipNeqRegisters { x, y } => x < 16 && y < 16,
            Instruction::JumpOffset { x, addr } => x < 16 && addr < 0x1000,
            Instruction::Random { x, kk } => x < 16,
            Instruction::Draw { x, y, n } => x < 16 && y < 16 && n < 16,
            _ => true,
        }
    }
}

/// Decodes one big-endian opcode; `None` when it matches no instruction.
pub fn decode(op: u16) -> (r: Option<Instruction>)
    ensures
        r == spec_decode(op),
        r matches Some(ins) ==> ins.wf(),
{
    let c = ((op >> 12u16) & 0xFu16) as u8;
    let x = ((op >> 8u16) & 0xFu16) as u8;
    let y = ((op >> 4u16) & 0xFu16) as u8;
    let d = (op & 0xFu16) as u8;
    let nnn = op & 0xFFFu16;
    let kk = (op & 0xFFu16) as u8;
    assert(((op >> 8u16) & 0xFu16) < 16u16) by (bit_vector);
    assert(((op >> 4u16) & 0xFu16) < 16u16) by (bit_vector);
    assert((op & 0xFu16) < 16u16) by (bit_vector);
    assert((op & 0xFFFu16) < 0x1000u16) by (bit_vector);
    if op == 0x0000 {
        Some(Instruction::Halt)
    } else if op == 0x00E0 {
        Some(Instruction::ClearScreen)
    } else if op == 0x00EE {
        Some(Instruction::Return)
    } else if c == 0x1 {
        Some(Instruction::Jump { addr: nnn })
    } else if c == 0x2 {
        Some(Instruction::Call { addr: nnn })
    } else if c == 0x3 {
        Some(Instruction::SkipEq { x, kk })
    } else if c == 0x4 {
        Some(Instruction::SkipNeq { x, kk })
    } else if c == 0x5 && d == 0x0 {
        Some(Instruction::SkipEqRegisters { x, y })
    } else if c == 0x6 {
        Some(Instruction::Load { x, kk })
    } else if c == 0x7 {
        Some(Instruction::AddImmediate { x, kk })
    } else if c == 0x8 && d == 0x0 {
        Some(Instruction::Move { x, y })
    } else if c == 0x8 && d == 0x1 {
        Some(Instruction::Or { x, y })
    } else if c == 0x8 && d == 0x2 {
        Some(Instruction::And { x, y })
    } else if c == 0x8 && d == 0x3 {
        Some(Instruction::Xor { x, y })
    } else if c == 0x8 && d == 0x4 {
        Some(Instruction::AddRegisters { x, y })
    } else if c == 0x8 && d == 0x5 {
        Some(Instruction::Sub { x, y })
    } else if c == 0x8 && d == 0x6 {
        Some(Instruction::ShiftRight { x })
    } else if c == 0x8 && d == 0x7 {
        Some(Instruction::SubReverse { x, y })
    } else if c == 0x8 && d == 0xE {
        Some(Instruction::ShiftLeft { x })
    } else if c == 0x9 && d == 0x0 {
        Some(Instruction::SkipNeqRegisters { x, y })
    } else if c == 0xA {
        Some(Instruction::SetIndex { addr: nnn })
    } else if c == 0xB {
        Some(Instruction::JumpOffset { x, addr: nnn })
    } else if c == 0xC {
        Some(Instruction::Random { x, kk })
    } else if c == 0xD {
        Some(Instruction::Draw { x, y, n: d })
    } else {
        None
    }
}

} // verus!
