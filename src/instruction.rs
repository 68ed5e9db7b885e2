use vstd::prelude::*;

verus! {

/// One decoded operation, with the operand fields it needs: register indices,
/// immediate bytes, 12-bit addresses and sprite heights.
#[derive(Debug, Clone, Copy, PartialEq, Eq, Structural)]
pub enum Instruction {
    /// A machine-code routine call, which is ignored.
    SYSaddr,
    ClearScreen,
    Return,
    Jump(u16),
    Call(u16),
    SkipEqualByte(u8, u8),
    SkipNotEqualByte(u8, u8),
    SkipEqualReg(u8, u8),
    LoadByte(u8, u8),
    AddByte(u8, u8),
    LoadReg(u8, u8),
    OR(u8, u8),
    AND(u8, u8),
    XOR(u8, u8),
    AddReg(u8, u8),
    SubReg(u8, u8),
    ShiftRight(u8),
    SubN(u8, u8),
    ShiftLeft(u8),
    SkipNotEqualReg(u8, u8),
    LoadI(u16),
    JumpAdd(u16),
    Rand(u8, u8),
    Draw(u8, u8, u8),
    SkipKey(u8),
    SkipNotKey(u8),
    GetDelay(u8),
    WaitKey(u8),
    SetDelay(u8),
    SetSound(u8),
    AddI(u8),
    SetISprite(u8),
    StoreBCD(u8),
    StoreRegI(u8),
    LoadRegI(u8),
    Invalid,
}

/// The high nibble of an opcode, which selects its family.
pub open spec fn family(op: u16) -> u16 {
    op >> 12
}

/// The 12-bit address operand `nnn`.
pub open spec fn addr_of(op: u16) -> u16 {
    op & 0xFFF
}

/// The first register operand `x`.
pub open spec fn x_of(op: u16) -> u8 {
    ((op >> 8) & 0xF) as u8
}

/// The second register operand `y`.
pub open spec fn y_of(op: u16) -> u8 {
    ((op >> 4) & 0xF) as u8
}

/// The low nibble `n`.
pub open spec fn nibble_of(op: u16) -> u16 {
    op & 0xF
}

/// The low byte `kk`.
pub open spec fn byte_of(op: u16) -> u16 {
    op & 0xFF
}

/// The instruction that an opcode encodes.
pub open spec fn decode_spec(op: u16) -> Instruction {
    let x = x_of(op);
    let y = y_of(op);
    let kk = byte_of(op);
    let nnn = addr_of(op);
    let h = family(op);
    if h == 0x0 {
        if op == 0x00E0 {
            Instruction::ClearScreen
        } else if op == 0x00EE {
            Instruction::Return
        } else {
            Instruction::SYSaddr
        }
    } else if h == 0x1 {
        Instruction::Jump(nnn)
    } else if h == 0x2 {
        Instruction::Call(nnn)
    } else if h == 0x3 {
        Instruction::SkipEqualByte(x, kk as u8)
    } else if h == 0x4 {
        Instruction::SkipNotEqualByte(x, kk as u8)
    } else if h == 0x5 {
        Instruction::SkipEqualReg(x, y)
    } else if h == 0x6 {
        Instruction::LoadByte(x, kk as u8)
    } else if h == 0x7 {
        Instruction::AddByte(x, kk as u8)
    } else if h == 0x8 {
        let n = nibble_of(op);
        if n == 0x0 {
            Instruction::LoadReg(x, y)
        } else if n == 0x1 {
            Instruction::OR(x, y)
        } else if n == 0x2 {
            Instruction::AND(x, y)
        } else if n == 0x3 {
            Instruction::XOR(x, y)
        } else if n == 0x4 {
            Instruction::AddReg(x, y)
        } else if n == 0x5 {
            Instruction::SubReg(x, y)
        } else if n == 0x6 {
            Instruction::ShiftRight(x)
        } else if n == 0x7 {
            Instruction::SubN(x, y)
        } else if n == 0xE {
            Instruction::ShiftLeft(x)
        } else {
            Instruction::Invalid
        }
    } else if h == 0x9 {
        Instruction::SkipNotEqualReg(x, y)
    } else if h == 0xA {
        Instruction::LoadI(nnn)
    } else if h == 0xB {
        Instruction::JumpAdd(nnn)
    } else if h == 0xC {
        Instruction::Rand(x, kk as u8)
    } else if h == 0xD {
        Instruction::Draw(x, y, nibble_of(op) as u8)
    } else if h == 0xE {
        if kk == 0x9E {
            Instruction::SkipKey(x)
        } else if kk == 0xA1 {
            Instruction::SkipNotKey(x)
        } else {
            Instruction::Invalid
        }
    } else {
        if kk == 0x07 {
            Instruction::GetDelay(x)
        } else if kk == 0x0A {
            Instruction::WaitKey(x)
        } else if kk == 0x15 {
            Instruction::SetDelay(x)
        } else if kk == 0x18 {
            Instruction::SetSound(x)
        } else if kk == 0x1E {
            Instruction::AddI(x)
        } else if kk == 0x29 {
            Instruction::SetISprite(x)
        } else if kk == 0x33 {
            Instruction::StoreBCD(x)
        } else if kk == 0x55 {
            Instruction::StoreRegI(x)
        } else if kk == 0x65 {
            Instruction::LoadRegI(x)
        } else {
            Instruction::Invalid
        }
    }
}

/// Whether an opcode matches one of the documented encodings, each written as a mask
/// and the pattern that the masked opcode must equal.
pub open spec fn documented(op: u16) -> bool {
    ||| op & 0xF000 == 0x0000
    ||| op & 0xF000 == 0x1000
    ||| op & 0xF000 == 0x2000
    ||| op & 0xF000 == 0x3000
    ||| op & 0xF000 == 0x4000
    ||| op & 0xF000 == 0x5000
    ||| op & 0xF000 == 0x6000
    ||| op & 0xF000 == 0x7000
    ||| op & 0xF00F == 0x8000
    ||| op & 0xF00F == 0x8001
    ||| op & 0xF00F == 0x8002
    ||| op & 0xF00F == 0x8003
    ||| op & 0xF00F == 0x8004
    ||| op & 0xF00F == 0x8005
    ||| op & 0xF00F == 0x8006
    ||| op & 0xF00F == 0x8007
    ||| op & 0xF00F == 0x800E
    ||| op & 0xF000 == 0x9000
    ||| op & 0xF000 == 0xA000
    ||| op & 0xF000 == 0xB000
    ||| op & 0xF000 == 0xC000
    ||| op & 0xF000 == 0xD000
    ||| op & 0xF0FF == 0xE09E
    ||| op & 0xF0FF == 0xE0A1
    ||| op & 0xF0FF == 0xF007
    ||| op & 0xF0FF == 0xF00A
    ||| op & 0xF0FF == 0xF015
    ||| op & 0xF0FF == 0xF018
    ||| op & 0xF0FF == 0xF01E
    ||| op & 0xF0FF == 0xF029
    ||| op & 0xF0FF == 0xF033
    ||| op & 0xF0FF == 0xF055
    ||| op & 0xF0FF == 0xF065
}

/// Decodes a 16-bit opcode. Total: every opcode gives an instruction, and those that
/// match no encoding give `Invalid`.
pub fn decode(op: u16) -> (r: Instruction)
    ensures
        r == decode_spec(op),
{
    let x: u8 = ((op >> 8) & 0xF) as u8;
    let y: u8 = ((op >> 4) & 0xF) as u8;
    let kk: u16 = op & 0xFF;
    let nnn: u16 = op & 0xFFF;
    match op >> 12 {
        0x0 => match op {
            0x00E0 => Instruction::ClearScreen,
            0x00EE => Instruction::Return,
            _ => Instruction::SYSaddr,
        },
        0x1 => Instruction::Jump(nnn),
        0x2 => Instruction::Call(nnn),
        0x3 => Instruction::SkipEqualByte(x, kk as u8),
        0x4 => Instruction::SkipNotEqualByte(x, kk as u8),
        0x5 => Instruction::SkipEqualReg(x, y),
        0x6 => Instruction::LoadByte(x, kk as u8),
        0x7 => Instruction::AddByte(x, kk as u8),
        0x8 => match op & 0xF {
            0x0 => Instruction::LoadReg(x, y),
            0x1 => Instruction::OR(x, y),
            0x2 => Instruction::AND(x, y),
            0x3 => Instruction::XOR(x, y),
            0x4 => Instruction::AddReg(x, y),
            0x5 => Instruction::SubReg(x, y),
            0x6 => Instruction::ShiftRight(x),
            0x7 => Instruction::SubN(x, y),
            0xE => Instruction::ShiftLeft(x),
            _ => Instruction::Invalid,
        },
        0x9 => Instruction::SkipNotEqualReg(x, y),
        0xA => Instruction::LoadI(nnn),
        0xB => Instruction::JumpAdd(nnn),
        0xC => Instruction::Rand(x, kk as u8),
        0xD => Instruction::Draw(x, y, (op & 0xF) as u8),
        0xE => match kk {
            0x9E => Instruction::SkipKey(x),
            0xA1 => Instruction::SkipNotKey(x),
            _ => Instruction::Invalid,
        },
        _ => match kk {
            0x07 => Instruction::GetDelay(x),
            0x0A => Instruction::WaitKey(x),
            0x15 => Instruction::SetDelay(x),
            0x18 => Instruction::SetSound(x),
            0x1E => Instruction::AddI(x),
            0x29 => Instruction::SetISprite(x),
            0x33 => Instruction::StoreBCD(x),
            0x55 => Instruction::StoreRegI(x),
            0x65 => Instruction::LoadRegI(x),
            _ => Instruction::Invalid,
        },
    }
}

/// Decoding gives `Invalid` exactly for the opcodes that match no documented encoding.
pub proof fn lemma_decode_invalid_iff_undocumented(op: u16)
    ensures
        decode_spec(op) is Invalid <==> !documented(op),
{
    let h = op >> 12;
    let n = op & 0xF;
    let kk = op & 0xFF;
    assert(h < 16) by (bit_vector)
        requires
            h == op >> 12,
    ;
    assert(((op & 0xF000 == 0x0000)
        || (op & 0xF000 == 0x1000)
        || (op & 0xF000 == 0x2000)
        || (op & 0xF000 == 0x3000)
        || (op & 0xF000 == 0x4000)
        || (op & 0xF000 == 0x5000)
        || (op & 0xF000 == 0x6000)
        || (op & 0xF000 == 0x7000)
        || (op & 0xF00F == 0x8000)
        || (op & 0xF00F == 0x8001)
        || (op & 0xF00F == 0x8002)
        || (op & 0xF00F == 0x8003)
        || (op & 0xF00F == 0x8004)
        || (op & 0xF00F == 0x8005)
        || (op & 0xF00F == 0x8006)
        || (op & 0xF00F == 0x8007)
        || (op & 0xF00F == 0x800E)
        || (op & 0xF000 == 0x9000)
        || (op & 0xF000 == 0xA000)
        || (op & 0xF000 == 0xB000)
        || (op & 0xF000 == 0xC000)
        || (op & 0xF000 == 0xD000)
        || (op & 0xF0FF == 0xE09E)
        || (op & 0xF0FF == 0xE0A1)
        || (op & 0xF0FF == 0xF007)
        || (op & 0xF0FF == 0xF00A)
        || (op & 0xF0FF == 0xF015)
        || (op & 0xF0FF == 0xF018)
        || (op & 0xF0FF == 0xF01E)
        || (op & 0xF0FF == 0xF029)
        || (op & 0xF0FF == 0xF033)
        || (op & 0xF0FF == 0xF055)
        || (op & 0xF0FF == 0xF065)) <==> (
        (h != 8 && h != 0xE && h != 0xF)
        || (h == 8 && (n <= 7 || n == 0xE))
        || (h == 0xE && (kk == 0x9E || kk == 0xA1))
        || (h == 0xF && (kk == 0x07 || kk == 0x0A || kk == 0x15 || kk == 0x18 || kk == 0x1E
            || kk == 0x29 || kk == 0x33 || kk == 0x55 || kk == 0x65))
    )) by (bit_vector)
        requires
            h == op >> 12,
            n == op & 0xF,
            kk == op & 0xFF,
    ;
}

} // verus!
