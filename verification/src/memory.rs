//! The address space: a fixed 4096-byte array holding the built-in font
//! bitmap in its low region, the program image from the program base, and
//! the call stack at the top, growing downward. Words are big-endian.

use vstd::prelude::*;
use crate::errors::CpuError;

verus! {

/// Total capacity of the address space, in bytes.
pub const MEM_SIZE: usize = 4096;
/// Bytes reserved at the bottom for the font bitmap: 16 glyphs of 5 bytes.
pub const FONT_SIZE: usize = 80;
/// Height of one font glyph, in bytes (one byte per pixel row).
pub const GLYPH_SIZE: usize = 5;
/// First address of the program region; execution starts here.
pub const PROGRAM_BASE: usize = 512;
/// One instruction / stack slot is a 2-byte word.
pub const WORD_SIZE: usize = 2;
/// The stack pointer starts here (one past the highest address) and is
/// decremented by a word before each push.
pub const STACK_TOP: usize = 4096;
/// Lowest address the stack may occupy: 16 call levels of one word each.
pub const STACK_FLOOR: usize = 4064;

/// The built-in 8x5 font bitmap for the hex digits 0 through F, glyph by
/// glyph, five rows per glyph, the high bit of each row leftmost.
pub open spec fn font_seq() -> Seq<u8> {
    seq![
        0xF0u8, 0x90, 0x90, 0x90, 0xF0, // 0
        0x20, 0x60, 0x20, 0x20, 0x70, // 1
        0xF0, 0x10, 0xF0, 0x80, 0xF0, // 2
        0xF0, 0x10, 0xF0, 0x10, 0xF0, // 3
        0x90, 0x90, 0xF0, 0x10, 0x10, // 4
        0xF0, 0x80, 0xF0, 0x10, 0xF0, // 5
        0xF0, 0x80, 0xF0, 0x90, 0xF0, // 6
        0xF0, 0x10, 0x20, 0x40, 0x40, // 7
        0xF0, 0x90, 0xF0, 0x90, 0xF0, // 8
        0xF0, 0x90, 0xF0, 0x10, 0xF0, // 9
        0xF0, 0x90, 0xF0, 0x90, 0x90, // A
        0xE0, 0x90, 0xE0, 0x90, 0xE0, // B
        0xF0, 0x80, 0x80, 0x80, 0xF0, // C
        0xE0, 0x90, 0x90, 0x90, 0xE0, // D
        0xF0, 0x80, 0xF0, 0x80, 0xF0, // E
        0xF0, 0x80, 0xF0, 0x80, 0x80, // F
    ]
}

/// The big-endian 16-bit word held at address `a`.
pub open spec fn word_at(m: Seq<u8>, a: int) -> u16 {
    (m[a] as int * 256 + m[a + 1] as int) as u16
}

/// The memory image after the big-endian word `v` is written at address `a`.
pub open spec fn write_word_spec(m: Seq<u8>, a: int, v: u16) -> Seq<u8> {
    m.update(a, (v as int / 256) as u8).update(a + 1, (v as int % 256) as u8)
}

/// Writing a word and reading it back at the same address yields the word.
pub proof fn lemma_word_roundtrip(m: Seq<u8>, a: int, v: u16)
    requires
        0 <= a,
        a + 2 <= m.len(),
    ensures
        word_at(write_word_spec(m, a, v), a) == v,
{
    vstd::arithmetic::div_mod::lemma_fundamental_div_mod(v as int, 256);
}

/// The freshly-constructed memory image: the font bitmap at the bottom,
/// the program image from the program base, zero everywhere else.
pub open spec fn init_mem_spec(rom: Seq<u8>) -> Seq<u8> {
    Seq::new(
        MEM_SIZE as nat,
        |a: int|
            if a < FONT_SIZE {
                font_seq()[a]
            } else if PROGRAM_BASE <= a < PROGRAM_BASE + rom.len() {
                rom[a - PROGRAM_BASE]
            } else {
                0u8
            },
    )
}

/// The addressable byte array. Its length is fixed at `MEM_SIZE` for the
/// lifetime of the machine.
pub struct Memory {
    bytes: Vec<u8>,
}

impl View for Memory {
    type V = Seq<u8>;

    closed spec fn view(&self) -> Seq<u8> {
        self.bytes@
    }
}

impl Memory {
    /// The built-in font bitmap as bytes.
    fn font_table() -> (v: Vec<u8>)
        ensures
            v@ == font_seq(),
    {
        let v: Vec<u8> = vec![
            0xF0u8, 0x90, 0x90, 0x90, 0xF0, // 0
            0x20, 0x60, 0x20, 0x20, 0x70, // 1
            0xF0, 0x10, 0xF0, 0x80, 0xF0, // 2
            0xF0, 0x10, 0xF0, 0x10, 0xF0, // 3
            0x90, 0x90, 0xF0, 0x10, 0x10, // 4
            0xF0, 0x80, 0xF0, 0x10, 0xF0, // 5
            0xF0, 0x80, 0xF0, 0x90, 0xF0, // 6
            0xF0, 0x10, 0x20, 0x40, 0x40, // 7
            0xF0, 0x90, 0xF0, 0x90, 0xF0, // 8
            0xF0, 0x90, 0xF0, 0x10, 0xF0, // 9
            0xF0, 0x90, 0xF0, 0x90, 0x90, // A
            0xE0, 0x90, 0xE0, 0x90, 0xE0, // B
            0xF0, 0x80, 0x80, 0x80, 0xF0, // C
            0xE0, 0x90, 0x90, 0x90, 0xE0, // D
            0xF0, 0x80, 0xF0, 0x80, 0xF0, // E
            0xF0, 0x80, 0xF0, 0x80, 0x80, // F
        ];
        proof {
            assert(v@ =~= font_seq());
        }
        v
    }

    /// Builds the address space from a program image: font at the bottom,
    /// the image at the program base, zero elsewhere. Fails if the image
    /// does not fit between the program base and the top of memory.
    pub fn new(rom: &Vec<u8>) -> (r: Result<Memory, CpuError>)
        ensures
            rom@.len() <= MEM_SIZE - PROGRAM_BASE ==> (r matches Ok(m) && m@ == init_mem_spec(
                rom@,
            )),
            rom@.len() > MEM_SIZE - PROGRAM_BASE ==> r == Err::<Memory, CpuError>(
                CpuError::ProgramTooLarge { len: rom@.len() as usize },
            ),
    {
        if rom.len() > MEM_SIZE - PROGRAM_BASE {
            return Err(CpuError::ProgramTooLarge { len: rom.len() });
        }
        let mut bytes: Vec<u8> = Vec::new();
        while bytes.len() < MEM_SIZE
            invariant
                bytes@.len() <= MEM_SIZE,
                forall|i: int| 0 <= i < bytes@.len() ==> bytes@[i] == 0u8,
            decreases MEM_SIZE - bytes@.len(),
        {
            bytes.push(0u8);
        }
        let font = Self::font_table();
        let mut i: usize = 0;
        while i < FONT_SIZE
            invariant
                i <= FONT_SIZE,
                bytes@.len() == MEM_SIZE,
                font@ == font_seq(),
                forall|k: int| 0 <= k < i ==> bytes@[k] == font_seq()[k],
                forall|k: int| i <= k < MEM_SIZE ==> bytes@[k] == 0u8,
            decreases FONT_SIZE - i,
        {
            bytes.set(i, font[i]);
            i = i + 1;
        }
        let mut j: usize = 0;
        while j < rom.len()
            invariant
                j <= rom@.len(),
                rom@.len() <= MEM_SIZE - PROGRAM_BASE,
                bytes@.len() == MEM_SIZE,
                forall|k: int| 0 <= k < FONT_SIZE ==> bytes@[k] == font_seq()[k],
                forall|k: int|
                    PROGRAM_BASE <= k < PROGRAM_BASE + j ==> bytes@[k] == rom@[k - PROGRAM_BASE],
                forall|k: int|
                    FONT_SIZE <= k < MEM_SIZE && !(PROGRAM_BASE <= k < PROGRAM_BASE + j)
                        ==> bytes@[k] == 0u8,
            decreases rom@.len() - j,
        {
            bytes.set(PROGRAM_BASE + j, rom[j]);
            j = j + 1;
        }
        let m = Memory { bytes };
        proof {
            assert(m@ =~= init_mem_spec(rom@));
        }
        Ok(m)
    }

    /// The byte at address `addr`.
    pub fn read_byte(&self, addr: usize) -> (b: u8)
        requires
            addr < self@.len(),
        ensures
            b == self@[addr as int],
    {
        self.bytes[addr]
    }

    /// Overwrites the byte at address `addr`.
    pub fn write_byte(&mut self, b: u8, addr: usize)
        requires
            addr < old(self)@.len(),
        ensures
            final(self)@ == old(self)@.update(addr as int, b),
    {
        self.bytes.set(addr, b);
    }

    /// The big-endian 16-bit word at `addr`, `addr + 1`.
    pub fn read_u16_at(&self, addr: usize) -> (w: u16)
        requires
            addr + 2 <= self@.len(),
        ensures
            w == word_at(self@, addr as int),
    {
        // binding the length lets the solver see addr + 1 fits in usize
        let n = self.bytes.len();
        let hi = self.bytes[addr];
        let lo = self.bytes[addr + 1];
        (hi as u16) * 256 + (lo as u16)
    }

    /// Writes `value` big-endian at `addr`, `addr + 1`.
    pub fn write_u16_at(&mut self, value: u16, addr: usize)
        requires
            addr + 2 <= old(self)@.len(),
        ensures
            final(self)@ == write_word_spec(old(self)@, addr as int, value),
    {
        // binding the length lets the solver see addr + 1 fits in usize
        let n = self.bytes.len();
        self.bytes.set(addr, (value / 256) as u8);
        self.bytes.set(addr + 1, (value % 256) as u8);
    }

    /// A copy of the `count` bytes starting at `addr`.
    pub fn read_range(&self, addr: usize, count: usize) -> (v: Vec<u8>)
        requires
            addr + count <= self@.len(),
        ensures
            v@ == self@.subrange(addr as int, addr as int + count as int),
    {
        // binding the length lets the solver see addr + i fits in usize
        let n = self.bytes.len();
        let mut v: Vec<u8> = Vec::new();
        let mut i: usize = 0;
        while i < count
            invariant
                i <= count,
                addr + count <= self@.len(),
                self@.len() == n,
                v@ =~= self@.subrange(addr as int, addr as int + i as int),
            decreases count - i,
        {
            v.push(self.bytes[addr + i]);
            i = i + 1;
        }
        proof {
            assert(v@ =~= self@.subrange(addr as int, addr as int + count as int));
        }
        v
    }

    /// Total capacity of the address space.
    pub fn len(&self) -> (n: usize)
        ensures
            n == self@.len(),
    {
        self.bytes.len()
    }
}

} // verus!
