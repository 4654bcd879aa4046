use vstd::prelude::*;

verus! {

/// One decoded instruction. Register operands are indices in 0..16,
/// addresses are 12-bit values and sprite heights are 4-bit values.
#[derive(PartialEq, Eq, Structural, Debug, Clone, Copy)]
pub enum Instr {
    /// 00E0: clear the framebuffer.
    Cls,
    /// 00EE: return from a subroutine.
    Ret,
    /// 1nnn: jump to `addr`.
    Jp { addr: u16 },
    /// 2nnn: call the subroutine at `addr`.
    Call { addr: u16 },
    /// 3xkk: skip the next instruction if Vx == kk.
    SeByte { x: usize, kk: u8 },
    /// 4xkk: skip the next instruction if Vx != kk.
    SneByte { x: usize, kk: u8 },
    /// 5xy0: skip the next instruction if Vx == Vy.
    SeReg { x: usize, y: usize },
    /// 6xkk: Vx = kk.
    LdByte { x: usize, kk: u8 },
    /// 7xkk: Vx = Vx + kk, wrapping, flag untouched.
    AddByte { x: usize, kk: u8 },
    /// 8xy0: Vx = Vy.
    LdReg { x: usize, y: usize },
    /// 8xy1: Vx = Vx | Vy.
    Or { x: usize, y: usize },
    /// 8xy2: Vx = Vx & Vy.
    And { x: usize, y: usize },
    /// 8xy3: Vx = Vx ^ Vy.
    Xor { x: usize, y: usize },
    /// 8xy4: Vx = Vx + Vy, VF = carry.
    AddReg { x: usize, y: usize },
    /// 8xy5: Vx = Vx - Vy, VF = no borrow.
    Sub { x: usize, y: usize },
    /// 8xy6: shift right by one, VF = the bit shifted out.
    Shr { x: usize, y: usize },
    /// 8xy7: Vx = Vy - Vx, VF = no borrow.
    Subn { x: usize, y: usize },
    /// 8xyE: shift left by one, VF = the bit shifted out.
    Shl { x: usize, y: usize },
    /// 9xy0: skip the next instruction if Vx != Vy.
    SneReg { x: usize, y: usize },
    /// Annn: I = addr.
    LdI { addr: u16 },
    /// Bnnn: jump to addr + V0.
    JpV0 { addr: u16 },
    /// Cxkk: Vx = random byte & kk.
    Rnd { x: usize, kk: u8 },
    /// Dxyn: draw an n-row sprite from memory at I at (Vx, Vy).
    Drw { x: usize, y: usize, n: u8 },
    /// Ex9E: skip the next instruction if the latched key equals Vx.
    Skp { x: usize },
    /// ExA1: skip the next instruction if the latched key differs from Vx.
    Sknp { x: usize },
    /// Fx07: Vx = delay timer.
    LdVxDt { x: usize },
    /// Fx0A: wait for a key, then Vx = key.
    LdVxK { x: usize },
    /// Fx15: delay timer = Vx.
    LdDtVx { x: usize },
    /// Fx18: sound timer = Vx.
    LdStVx { x: usize },
    /// Fx1E: I = I + Vx, VF = overflow past 12 bits.
    AddI { x: usize },
    /// Fx29: I = address of the glyph for digit Vx.
    LdF { x: usize },
    /// Fx33: store the decimal digits of Vx at I, I+1, I+2.
    LdB { x: usize },
    /// Fx55: store V0..=Vx in memory from I.
    StoreRegs { x: usize },
    /// Fx65: load V0..=Vx from memory from I.
    LoadRegs { x: usize },
    /// Any opcode outside the instruction set.
    Unknown { opcode: u16 },
}

impl Instr {
    /// Operands lie in the ranges that `decode` produces.
    pub open spec fn wf(self) -> bool {
        match self {
            Instr::Jp { addr } | Instr::Call { addr } | Instr::LdI { addr } | Instr::JpV0 {
                addr,
            } => addr <= 0xfff,
            Instr::SeByte { x, .. } | Instr::SneByte { x, .. } | Instr::LdByte { x, .. }
            | Instr::AddByte { x, .. } | Instr::Rnd { x, .. } => x < 16,
            Instr::SeReg { x, y } | Instr::LdReg { x, y } | Instr::Or { x, y } | Instr::And {
                x,
                y,
            } | Instr::Xor { x, y } | Instr::AddReg { x, y } | Instr::Sub { x, y } | Instr::Shr {
                x,
                y,
            } | Instr::Subn { x, y } | Instr::Shl { x, y } | Instr::SneReg { x, y } => x < 16 && y
                < 16,
            Instr::Drw { x, y, n } => x < 16 && y < 16 && n < 16,
            Instr::Skp { x } | Instr::Sknp { x } | Instr::LdVxDt { x } | Instr::LdVxK { x }
            | Instr::LdDtVx { x } | Instr::LdStVx { x } | Instr::AddI { x } | Instr::LdF { x }
            | Instr::LdB { x } | Instr::StoreRegs { x } | Instr::LoadRegs { x } => x < 16,
            _ => true,
        }
    }
}

/// The instruction that a 16-bit opcode encodes: the top nibble picks the
/// family, and the fields are nnn (low 12 bits), x (bits 8-11), y (bits 4-7),
/// kk (low byte) and n (low nibble).
pub open spec fn decode_spec(op: u16) -> Instr {
    let family = op >> 12u16;
    let addr = op & 0x0fffu16;
    let x = ((op >> 8u16) & 0xfu16) as usize;
    let y = ((op >> 4u16) & 0xfu16) as usize;
    let kk = (op & 0xffu16) as u8;
    let n = (op & 0xfu16) as u8;
    if family == 0 {
        if op == 0x00e0 {
            Instr::Cls
        } else if op == 0x00ee {
            Instr::Ret
        } else {
            Instr::Unknown { opcode: op }
        }
    } else if family == 1 {
        Instr::Jp { addr }
    } else if family == 2 {
        Instr::Call { addr }
    } else if family == 3 {
        Instr::SeByte { x, kk }
    } else if family == 4 {
        Instr::SneByte { x, kk }
    } else if family == 5 {
        if n == 0 {
            Instr::SeReg { x, y }
        } else {
            Instr::Unknown { opcode: op }
        }
    } else if family == 6 {
        Instr::LdByte { x, kk }
    } else if family == 7 {
        Instr::AddByte { x, kk }
    } else if family == 8 {
        if n == 0 {
            Instr::LdReg { x, y }
        } else if n == 1 {
            Instr::Or { x, y }
        } else if n == 2 {
            Instr::And { x, y }
        } else if n == 3 {
            Instr::Xor { x, y }
        } else if n == 4 {
            Instr::AddReg { x, y }
        } else if n == 5 {
            Instr::Sub { x, y }
        } else if n == 6 {
            Instr::Shr { x, y }
        } else if n == 7 {
            Instr::Subn { x, y }
        } else if n == 0xe {
            Instr::Shl { x, y }
        } else {
            Instr::Unknown { opcode: op }
        }
    } else if family == 9 {
        if n == 0 {
            Instr::SneReg { x, y }
        } else {
            Instr::Unknown { opcode: op }
        }
    } else if family == 0xa {
        Instr::LdI { addr }
    } else if family == 0xb {
        Instr::JpV0 { addr }
    } else if family == 0xc {
        Instr::Rnd { x, kk }
    } else if family == 0xd {
        Instr::Drw { x, y, n }
    } else if family == 0xe {
        if kk == 0x9e {
            Instr::Skp { x }
        } else if kk == 0xa1 {
            Instr::Sknp { x }
        } else {
            Instr::Unknown { opcode: op }
        }
    } else {
        if kk == 0x07 {
            Instr::LdVxDt { x }
        } else if kk == 0x0a {
            Instr::LdVxK { x }
        } else if kk == 0x15 {
            Instr::LdDtVx { x }
        } else if kk == 0x18 {
            Instr::LdStVx { x }
        } else if kk == 0x1e {
            Instr::AddI { x }
        } else if kk == 0x29 {
            Instr::LdF { x }
        } else if kk == 0x33 {
            Instr::LdB { x }
        } else if kk == 0x55 {
            Instr::StoreRegs { x }
        } else if kk == 0x65 {
            Instr::LoadRegs { x }
        } else {
            Instr::Unknown { opcode: op }
        }
    }
}

/// Decodes one opcode into its instruction.
pub fn decode(op: u16) -> (r: Instr)
    ensures
        r == decode_spec(op),
        r.wf(),
{
    let family = op >> 12u16;
    let addr = op & 0x0fffu16;
    let x = ((op >> 8u16) & 0xfu16) as usize;
    let y = ((op >> 4u16) & 0xfu16) as usize;
    let kk = (op & 0xffu16) as u8;
    let n = (op & 0xfu16) as u8;
    assert(addr <= 0xfff && x < 16 && y < 16 && n < 16) by (bit_vector)
        requires
            addr == op & 0x0fffu16,
            x == ((op >> 8u16) & 0xfu16) as usize,
            y == ((op >> 4u16) & 0xfu16) as usize,
            n == (op & 0xfu16) as u8,
    ;
    if family == 0 {
        if op == 0x00e0 {
            Instr::Cls
        } else if op == 0x00ee {
            Instr::Ret
        } else {
            Instr::Unknown { opcode: op }
        }
    } else if family == 1 {
        Instr::Jp { addr }
    } else if family == 2 {
        Instr::Call { addr }
    } else if family == 3 {
        Instr::SeByte { x, kk }
    } else if family == 4 {
        Instr::SneByte { x, kk }
    } else if family == 5 {
        if n == 0 {
            Instr::SeReg { x, y }
        } else {
            Instr::Unknown { opcode: op }
        }
    } else if family == 6 {
        Instr::LdByte { x, kk }
    } else if family == 7 {
        Instr::AddByte { x, kk }
    } else if family == 8 {
        if n == 0 {
            Instr::LdReg { x, y }
        } else if n == 1 {
            Instr::Or { x, y }
        } else if n == 2 {
            Instr::And { x, y }
        } else if n == 3 {
            Instr::Xor { x, y }
        } else if n == 4 {
            Instr::AddReg { x, y }
        } else if n == 5 {
            Instr::Sub { x, y }
        } else if n == 6 {
            Instr::Shr { x, y }
        } else if n == 7 {
            Instr::Subn { x, y }
        } else if n == 0xe {
            Instr::Shl { x, y }
        } else {
            Instr::Unknown { opcode: op }
        }
    } else if family == 9 {
        if n == 0 {
            Instr::SneReg { x, y }
        } else {
            Instr::Unknown { opcode: op }
        }
    } else if family == 0xa {
        Instr::LdI { addr }
    } else if family == 0xb {
        Instr::JpV0 { addr }
    } else if family == 0xc {
        Instr::Rnd { x, kk }
    } else if family == 0xd {
        Instr::Drw { x, y, n }
    } else if family == 0xe {
        if kk == 0x9e {
            Instr::Skp { x }
        } else if kk == 0xa1 {
            Instr::Sknp { x }
        } else {
            Instr::Unknown { opcode: op }
        }
    } else {
        if kk == 0x07 {
            Instr::LdVxDt { x }
        } else if kk == 0x0a {
            Instr::LdVxK { x }
        } else if kk == 0x15 {
            Instr::LdDtVx { x }
        } else if kk == 0x18 {
            Instr::LdStVx { x }
        } else if kk == 0x1e {
            Instr::AddI { x }
        } else if kk == 0x29 {
            Instr::LdF { x }
        } else if kk == 0x33 {
            Instr::LdB { x }
        } else if kk == 0x55 {
            Instr::StoreRegs { x }
        } else if kk == 0x65 {
            Instr::LoadRegs { x }
        } else {
            Instr::Unknown { opcode: op }
        }
    }
}

} // verus!
