//! The instruction decoder: a stateless view over a 16-bit instruction
//! word, its nibble, byte, and address fields, and the pure decode function
//! that maps a word to a tagged instruction or rejects it.

use vstd::prelude::*;

verus! {

/// A raw 16-bit instruction word, decoded afresh on every cycle.
#[derive(Clone, Copy, PartialEq, Eq, Structural)]
pub struct Opcode(pub u16);

/// Nibble `i` of word `w`, most significant first: nibble 0 is the high
/// four bits.
pub open spec fn nibble_of(w: u16, i: int) -> u16 {
    if i == 0 {
        (w as int / 0x1000) as u16
    } else if i == 1 {
        (w as int / 0x100 % 16) as u16
    } else if i == 2 {
        (w as int / 16 % 16) as u16
    } else {
        (w as int % 16) as u16
    }
}

impl Opcode {
    /// The 4-bit field at position `i`, most significant first.
    pub fn nibble(&self, i: u8) -> (n: u8)
        requires
            i < 4,
        ensures
            n == nibble_of(self.0, i as int),
            n < 16,
    {
        if i == 0 {
            (self.0 / 0x1000) as u8
        } else if i == 1 {
            (self.0 / 0x100 % 16) as u8
        } else if i == 2 {
            (self.0 / 16 % 16) as u8
        } else {
            (self.0 % 16) as u8
        }
    }

    /// The first operand register index: the second nibble.
    pub fn reg1(&self) -> (x: u8)
        ensures
            x == nibble_of(self.0, 1),
            x < 16,
    {
        self.nibble(1)
    }

    /// The second operand register index: the third nibble.
    pub fn reg2(&self) -> (y: u8)
        ensures
            y == nibble_of(self.0, 2),
            y < 16,
    {
        self.nibble(2)
    }

    /// The immediate byte operand: the low 8 bits.
    pub fn byte(&self) -> (b: u8)
        ensures
            b == self.0 as int % 256,
    {
        (self.0 % 256) as u8
    }

    /// The address operand: the low 12 bits.
    pub fn tribble(&self) -> (a: u16)
        ensures
            a == self.0 as int % 0x1000,
            a < 0x1000,
    {
        self.0 % 0x1000
    }

    /// The sprite-height operand: the low 4 bits.
    pub fn size_nibble(&self) -> (n: u8)
        ensures
            n == nibble_of(self.0, 3),
            n < 16,
    {
        self.nibble(3)
    }
}

/// The closed set of operations the machine can execute, with their
/// operand fields already extracted: register indices `x` and `y` (each
/// below 16), an immediate `byte`, a 12-bit `addr`, or a sprite height `n`
/// (below 16). `Unknown` marks a word outside the instruction table.
#[derive(Clone, Copy, PartialEq, Eq, Structural)]
pub enum Instruction {
    /// `CLS`: clear the display.
    ClearScreen,
    /// `RET`: pop the return address into the program counter.
    Return,
    /// `JMP addr`: jump to `addr`.
    Jump { addr: u16 },
    /// `JMP V0, addr`: jump to `addr` plus register 0.
    JumpV0 { addr: u16 },
    /// `CALL addr`: push the return address, jump to `addr`.
    Call { addr: u16 },
    /// `SKE Vx, byte`: skip the next instruction if `Vx == byte`.
    SkipEqImm { x: u8, byte: u8 },
    /// `SKNE Vx, byte`: skip the next instruction if `Vx != byte`.
    SkipNeImm { x: u8, byte: u8 },
    /// `SKE Vx, Vy`: skip the next instruction if `Vx == Vy`.
    SkipEqReg { x: u8, y: u8 },
    /// `SKNE Vx, Vy`: skip the next instruction if `Vx != Vy`.
    SkipNeReg { x: u8, y: u8 },
    /// `MOV Vx, byte`: load the immediate into `Vx`.
    SetImm { x: u8, byte: u8 },
    /// `ADD Vx, byte`: add the immediate into `Vx`, wrapping, flags untouched.
    AddImm { x: u8, byte: u8 },
    /// `MOV Vx, Vy`: copy `Vy` into `Vx`.
    SetReg { x: u8, y: u8 },
    /// `OR Vx, Vy`: bitwise or into `Vx`.
    Or { x: u8, y: u8 },
    /// `AND Vx, Vy`: bitwise and into `Vx`.
    And { x: u8, y: u8 },
    /// `XOR Vx, Vy`: bitwise exclusive or into `Vx`.
    Xor { x: u8, y: u8 },
    /// `ADD Vx, Vy`: wrapping add into `Vx`; `VF` takes the carry bit.
    AddReg { x: u8, y: u8 },
    /// `SUB Vx, Vy`: wrapping subtract into `Vx`; `VF` takes the not-borrow bit.
    SubReg { x: u8, y: u8 },
    /// `SHR Vx`: `VF` takes the low bit, then `Vx` shifts right by one.
    ShiftRight { x: u8 },
    /// `RSUB Vx, Vy`: `Vx` becomes `Vy - Vx`, wrapping; `VF` takes not-borrow.
    SubRev { x: u8, y: u8 },
    /// `SHL Vx`: `VF` takes the high bit, then `Vx` shifts left by one.
    ShiftLeft { x: u8 },
    /// `MOV I, addr`: load `addr` into the index register.
    SetIndex { addr: u16 },
    /// `ADD I, Vx`: add `Vx` into the index register, wrapping at 16 bits.
    AddIndex { x: u8 },
    /// `RND Vx, byte`: load a uniform random value in `[0, byte]` into `Vx`.
    Random { x: u8, byte: u8 },
    /// `DRW Vx, Vy, n`: XOR-blit the `n`-row sprite at the index register
    /// onto the display at `(Vx, Vy)`; `VF` takes the collision flag.
    Draw { x: u8, y: u8, n: u8 },
    /// `MOV Vx, DT`: read the delay timer into `Vx`.
    GetTimer { x: u8 },
    /// `MOV DT, Vx`: load the delay timer from `Vx`.
    SetTimer { x: u8 },
    /// `FONT Vx`: point the index register at the font glyph for the low
    /// nibble of `Vx`.
    Font { x: u8 },
    /// `BCD Vx`: store the three decimal digits of `Vx` at the index register.
    StoreBcd { x: u8 },
    /// `STR [I], Vx`: store registers 0 through `x` at the index register.
    StoreRegs { x: u8 },
    /// `LD Vx, [I]`: load registers 0 through `x` from the index register.
    LoadRegs { x: u8 },
    /// A word that matches no entry of the instruction table.
    Unknown,
}

/// The instruction table: which operation a 16-bit word denotes, with its
/// operand fields. This is the authoritative definition of the supported
/// instruction set; any word not matched here is a decode failure.
pub open spec fn spec_decode(w: u16) -> Instruction {
    let n0 = nibble_of(w, 0);
    let x = nibble_of(w, 1) as u8;
    let y = nibble_of(w, 2) as u8;
    let n3 = nibble_of(w, 3);
    let byte = (w as int % 256) as u8;
    let addr = (w as int % 0x1000) as u16;
    if w == 0x00E0 {
        Instruction::ClearScreen
    } else if w == 0x00EE {
        Instruction::Return
    } else if n0 == 1 {
        Instruction::Jump { addr }
    } else if n0 == 2 {
        Instruction::Call { addr }
    } else if n0 == 3 {
        Instruction::SkipEqImm { x, byte }
    } else if n0 == 4 {
        Instruction::SkipNeImm { x, byte }
    } else if n0 == 5 && n3 == 0 {
        Instruction::SkipEqReg { x, y }
    } else if n0 == 6 {
        Instruction::SetImm { x, byte }
    } else if n0 == 7 {
        Instruction::AddImm { x, byte }
    } else if n0 == 8 && n3 == 0 {
        Instruction::SetReg { x, y }
    } else if n0 == 8 && n3 == 1 {
        Instruction::Or { x, y }
    } else if n0 == 8 && n3 == 2 {
        Instruction::And { x, y }
    } else if n0 == 8 && n3 == 3 {
        Instruction::Xor { x, y }
    } else if n0 == 8 && n3 == 4 {
        Instruction::AddReg { x, y }
    } else if n0 == 8 && n3 == 5 {
        Instruction::SubReg { x, y }
    } else if n0 == 8 && n3 == 6 {
        Instruction::ShiftRight { x }
    } else if n0 == 8 && n3 == 7 {
        Instruction::SubRev { x, y }
    } else if n0 == 8 && n3 == 0xE {
        Instruction::ShiftLeft { x }
    } else if n0 == 9 && n3 == 0 {
        Instruction::SkipNeReg { x, y }
    } else if n0 == 0xA {
        Instruction::SetIndex { addr }
    } else if n0 == 0xB {
        Instruction::JumpV0 { addr }
    } else if n0 == 0xC {
        Instruction::Random { x, byte }
    } else if n0 == 0xD {
        Instruction::Draw { x, y, n: n3 as u8 }
    } else if n0 == 0xE {
        Instruction::Unknown
    } else if n0 == 0xF && byte == 0x07 {
        Instruction::GetTimer { x }
    } else if n0 == 0xF && byte == 0x15 {
        Instruction::SetTimer { x }
    } else if n0 == 0xF && byte == 0x1E {
        Instruction::AddIndex { x }
    } else if n0 == 0xF && byte == 0x29 {
        Instruction::Font { x }
    } else if n0 == 0xF && byte == 0x33 {
        Instruction::StoreBcd { x }
    } else if n0 == 0xF && byte == 0x55 {
        Instruction::StoreRegs { x }
    } else if n0 == 0xF && byte == 0x65 {
        Instruction::LoadRegs { x }
    } else {
        Instruction::Unknown
    }
}

/// Every register index an instruction carries is below 16, every sprite
/// height below 16, every address below 0x1000.
pub open spec fn instr_fields_valid(i: Instruction) -> bool {
    match i {
        Instruction::Jump { addr } => addr < 0x1000,
        Instruction::JumpV0 { addr } => addr < 0x1000,
        Instruction::Call { addr } => addr < 0x1000,
        Instruction::SetIndex { addr } => addr < 0x1000,
        Instruction::SkipEqImm { x, .. } => x < 16,
        Instruction::SkipNeImm { x, .. } => x < 16,
        Instruction::SkipEqReg { x, y } => x < 16 && y < 16,
        Instruction::SkipNeReg { x, y } => x < 16 && y < 16,
        Instruction::SetImm { x, .. } => x < 16,
        Instruction::AddImm { x, .. } => x < 16,
        Instruction::SetReg { x, y } => x < 16 && y < 16,
        Instruction::Or { x, y } => x < 16 && y < 16,
        Instruction::And { x, y } => x < 16 && y < 16,
        Instruction::Xor { x, y } => x < 16 && y < 16,
        Instruction::AddReg { x, y } => x < 16 && y < 16,
        Instruction::SubReg { x, y } => x < 16 && y < 16,
        Instruction::SubRev { x, y } => x < 16 && y < 16,
        Instruction::ShiftRight { x } => x < 16,
        Instruction::ShiftLeft { x } => x < 16,
        Instruction::AddIndex { x } => x < 16,
        Instruction::Random { x, .. } => x < 16,
        Instruction::Draw { x, y, n } => x < 16 && y < 16 && n < 16,
        Instruction::GetTimer { x } => x < 16,
        Instruction::SetTimer { x } => x < 16,
        Instruction::Font { x } => x < 16,
        Instruction::StoreBcd { x } => x < 16,
        Instruction::StoreRegs { x } => x < 16,
        Instruction::LoadRegs { x } => x < 16,
        _ => true,
    }
}

/// Decodes one instruction word against the instruction table.
pub fn decode(op: Opcode) -> (i: Instruction)
    ensures
        i == spec_decode(op.0),
        instr_fields_valid(i),
{
    let w = op.0;
    let n0 = op.nibble(0);
    let x = op.reg1();
    let y = op.reg2();
    let n3 = op.size_nibble();
    let byte = op.byte();
    let addr = op.tribble();
    if w == 0x00E0 {
        Instruction::ClearScreen
    } else if w == 0x00EE {
        Instruction::Return
    } else if n0 == 1 {
        Instruction::Jump { addr }
    } else if n0 == 2 {
        Instruction::Call { addr }
    } else if n0 == 3 {
        Instruction::SkipEqImm { x, byte }
    } else if n0 == 4 {
        Instruction::SkipNeImm { x, byte }
    } else if n0 == 5 && n3 == 0 {
        Instruction::SkipEqReg { x, y }
    } else if n0 == 6 {
        Instruction::SetImm { x, byte }
    } else if n0 == 7 {
        Instruction::AddImm { x, byte }
    } else if n0 == 8 && n3 == 0 {
        Instruction::SetReg { x, y }
    } else if n0 == 8 && n3 == 1 {
        Instruction::Or { x, y }
    } else if n0 == 8 && n3 == 2 {
        Instruction::And { x, y }
    } else if n0 == 8 && n3 == 3 {
        Instruction::Xor { x, y }
    } else if n0 == 8 && n3 == 4 {
        Instruction::AddReg { x, y }
    } else if n0 == 8 && n3 == 5 {
        Instruction::SubReg { x, y }
    } else if n0 == 8 && n3 == 6 {
        Instruction::ShiftRight { x }
    } else if n0 == 8 && n3 == 7 {
        Instruction::SubRev { x, y }
    } else if n0 == 8 && n3 == 0xE {
        Instruction::ShiftLeft { x }
    } else if n0 == 9 && n3 == 0 {
        Instruction::SkipNeReg { x, y }
    } else if n0 == 0xA {
        Instruction::SetIndex { addr }
    } else if n0 == 0xB {
        Instruction::JumpV0 { addr }
    } else if n0 == 0xC {
        Instruction::Random { x, byte }
    } else if n0 == 0xD {
        Instruction::Draw { x, y, n: n3 }
    } else if n0 == 0xE {
        Instruction::Unknown
    } else if n0 == 0xF && byte == 0x07 {
        Instruction::GetTimer { x }
    } else if n0 == 0xF && byte == 0x15 {
        Instruction::SetTimer { x }
    } else if n0 == 0xF && byte == 0x1E {
        Instruction::AddIndex { x }
    } else if n0 == 0xF && byte == 0x29 {
        Instruction::Font { x }
    } else if n0 == 0xF && byte == 0x33 {
        Instruction::StoreBcd { x }
    } else if n0 == 0xF && byte == 0x55 {
        Instruction::StoreRegs { x }
    } else if n0 == 0xF && byte == 0x65 {
        Instruction::LoadRegs { x }
    } else {
        Instruction::Unknown
    }
}

} // verus!
