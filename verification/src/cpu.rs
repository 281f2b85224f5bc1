//! The processor: the register file, index register, program counter and
//! stack pointer, together with the memory, display and delay timer it
//! owns, and the fetch-decode-execute cycle over them.
//!
//! The whole cycle is specified by [`step_rel`]: the relation between the
//! machine state before a call to [`Cpu::execute`], the state after it, and
//! the call's result. Every instruction's semantics, every failure
//! condition, and the fact that a failing cycle leaves the state untouched
//! are all part of that one relation.

use vstd::prelude::*;
use crate::display;
use crate::display::{Display, draw_spec, empty_grid, has_collision};
use crate::errors::CpuError;
use crate::memory;
use crate::memory::{init_mem_spec, word_at, write_word_spec, Memory};
use crate::opcode::{decode, spec_decode, Instruction, Opcode};
use crate::rng::random_in_range;
use crate::timer::Timer;

verus! {

/// The mathematical state of the machine: the sixteen 8-bit registers,
/// the program counter, index register and stack pointer as integers, the
/// memory image, the pixel grid, and the delay timer.
#[verifier::ext_equal]
pub ghost struct CpuView {
    pub gpr: Seq<u8>,
    pub pc: int,
    pub index: int,
    pub sp: int,
    pub mem: Seq<u8>,
    pub disp: Seq<bool>,
    pub timer: u8,
}

/// Well-formedness of a machine state: sixteen registers, full-size memory
/// and display, 16-bit program counter and index register, and a stack
/// pointer inside the reserved stack region.
pub open spec fn wf(s: CpuView) -> bool {
    &&& s.gpr.len() == 16
    &&& s.mem.len() == memory::MEM_SIZE
    &&& s.disp.len() == display::PIXEL_COUNT
    &&& 0 <= s.pc < 0x10000
    &&& 0 <= s.index < 0x10000
    &&& memory::STACK_FLOOR <= s.sp <= memory::STACK_TOP
}

/// The state of a freshly-constructed machine loaded with `rom`: registers,
/// index and timer zero, the program counter at the program base, the stack
/// pointer at the top of memory, the display clear, and memory holding the
/// font and the program image.
pub open spec fn init_view(rom: Seq<u8>) -> CpuView {
    CpuView {
        gpr: Seq::new(16, |i: int| 0u8),
        pc: memory::PROGRAM_BASE as int,
        index: 0,
        sp: memory::STACK_TOP as int,
        mem: init_mem_spec(rom),
        disp: empty_grid(),
        timer: 0u8,
    }
}

/// `s` with the program counter replaced.
pub open spec fn with_pc(s: CpuView, pc: int) -> CpuView {
    CpuView { pc, ..s }
}

/// `s` with register `x` replaced.
pub open spec fn with_reg(s: CpuView, x: int, v: u8) -> CpuView {
    CpuView { gpr: s.gpr.update(x, v), ..s }
}

/// `s` with register `x` replaced and the flag register `VF` set to `f`.
/// When `x` is 15 the flag wins: it is written last.
pub open spec fn with_reg_flag(s: CpuView, x: int, v: u8, f: u8) -> CpuView {
    CpuView { gpr: s.gpr.update(x, v).update(15, f), ..s }
}

/// `mem` with registers `0..=x` of `gpr` stored at `base`.
pub open spec fn stored_mem(mem: Seq<u8>, gpr: Seq<u8>, base: int, x: int) -> Seq<u8> {
    Seq::new(mem.len(), |a: int| if base <= a <= base + x { gpr[a - base] } else { mem[a] })
}

/// `gpr` with registers `0..=x` loaded from `mem` at `base`.
pub open spec fn loaded_gpr(gpr: Seq<u8>, mem: Seq<u8>, base: int, x: int) -> Seq<u8> {
    Seq::new(16, |k: int| if k <= x { mem[base + k] } else { gpr[k] })
}

/// `mem` with the three decimal digits of `v` (hundreds, tens, ones)
/// stored at `base`, `base + 1`, `base + 2`.
pub open spec fn bcd_mem(mem: Seq<u8>, base: int, v: u8) -> Seq<u8> {
    mem.update(base, (v as int / 100) as u8).update(base + 1, (v as int / 10 % 10) as u8).update(
        base + 2,
        (v as int % 10) as u8,
    )
}

/// The state after the sprite-draw instruction runs on state `s`: the
/// `n`-row sprite at the index register is XOR-blitted at `(x, y)` and the
/// flag register takes the collision bit.
pub open spec fn draw_result(s: CpuView, x: u8, y: u8, n: u8) -> CpuView {
    let sprite = s.mem.subrange(s.index, s.index + n);
    let col = has_collision(s.disp, sprite, x as int, y as int);
    CpuView {
        disp: draw_spec(s.disp, sprite, x as int, y as int),
        gpr: s.gpr.update(15, if col { 1u8 } else { 0u8 }),
        ..s
    }
}

/// What one executed instruction does: relates the state `pre` before the
/// cycle, the fetched word `w`, the state `post` after the cycle, and the
/// cycle's result. `s` below is `pre` with the program counter already
/// advanced past the instruction; every failure leaves `post == pre`.
pub open spec fn instr_rel(pre: CpuView, w: u16, post: CpuView, r: Result<(), CpuError>) -> bool {
    let s = CpuView { pc: pre.pc + memory::WORD_SIZE, ..pre };
    match spec_decode(w) {
        Instruction::ClearScreen => r == Ok::<(), CpuError>(()) && post == (CpuView {
            disp: empty_grid(),
            ..s
        }),
        Instruction::Return => if pre.sp + memory::WORD_SIZE > memory::STACK_TOP {
            post == pre && r == Err::<(), CpuError>(CpuError::StackUnderflow)
        } else {
            r == Ok::<(), CpuError>(()) && post == (CpuView {
                pc: word_at(s.mem, s.sp) as int,
                sp: s.sp + memory::WORD_SIZE,
                ..s
            })
        },
        Instruction::Jump { addr } => r == Ok::<(), CpuError>(()) && post == with_pc(
            s,
            addr as int,
        ),
        Instruction::JumpV0 { addr } => r == Ok::<(), CpuError>(()) && post == with_pc(
            s,
            addr + s.gpr[0],
        ),
        Instruction::Call { addr } => if pre.sp - memory::WORD_SIZE < memory::STACK_FLOOR {
            post == pre && r == Err::<(), CpuError>(CpuError::StackOverflow)
        } else {
            r == Ok::<(), CpuError>(()) && post == (CpuView {
                pc: addr as int,
                sp: s.sp - memory::WORD_SIZE,
                mem: write_word_spec(s.mem, s.sp - memory::WORD_SIZE, s.pc as u16),
                ..s
            })
        },
        Instruction::SkipEqImm { x, byte } => r == Ok::<(), CpuError>(()) && post == with_pc(
            s,
            if s.gpr[x as int] == byte {
                s.pc + memory::WORD_SIZE
            } else {
                s.pc
            },
        ),
        Instruction::SkipNeImm { x, byte } => r == Ok::<(), CpuError>(()) && post == with_pc(
            s,
            if s.gpr[x as int] != byte {
                s.pc + memory::WORD_SIZE
            } else {
                s.pc
            },
        ),
        Instruction::SkipEqReg { x, y } => r == Ok::<(), CpuError>(()) && post == with_pc(
            s,
            if s.gpr[x as int] == s.gpr[y as int] {
                s.pc + memory::WORD_SIZE
            } else {
                s.pc
            },
        ),
        Instruction::SkipNeReg { x, y } => r == Ok::<(), CpuError>(()) && post == with_pc(
            s,
            if s.gpr[x as int] != s.gpr[y as int] {
                s.pc + memory::WORD_SIZE
            } else {
                s.pc
            },
        ),
        Instruction::SetImm { x, byte } => r == Ok::<(), CpuError>(()) && post == with_reg(
            s,
            x as int,
            byte,
        ),
        Instruction::AddImm { x, byte } => r == Ok::<(), CpuError>(()) && post == with_reg(
            s,
            x as int,
            ((s.gpr[x as int] + byte) % 256) as u8,
        ),
        Instruction::SetReg { x, y } => r == Ok::<(), CpuError>(()) && post == with_reg(
            s,
            x as int,
            s.gpr[y as int],
        ),
        Instruction::Or { x, y } => r == Ok::<(), CpuError>(()) && post == with_reg(
            s,
            x as int,
            s.gpr[x as int] | s.gpr[y as int],
        ),
        Instruction::And { x, y } => r == Ok::<(), CpuError>(()) && post == with_reg(
            s,
            x as int,
            s.gpr[x as int] & s.gpr[y as int],
        ),
        Instruction::Xor { x, y } => r == Ok::<(), CpuError>(()) && post == with_reg(
            s,
            x as int,
            s.gpr[x as int] ^ s.gpr[y as int],
        ),
        Instruction::AddReg { x, y } => r == Ok::<(), CpuError>(()) && post == with_reg_flag(
            s,
            x as int,
            ((s.gpr[x as int] + s.gpr[y as int]) % 256) as u8,
            if s.gpr[x as int] + s.gpr[y as int] >= 256 {
                1u8
            } else {
                0u8
            },
        ),
        Instruction::SubReg { x, y } => r == Ok::<(), CpuError>(()) && post == with_reg_flag(
            s,
            x as int,
            ((s.gpr[x as int] - s.gpr[y as int]) % 256) as u8,
            if s.gpr[x as int] >= s.gpr[y as int] {
                1u8
            } else {
                0u8
            },
        ),
        Instruction::SubRev { x, y } => r == Ok::<(), CpuError>(()) && post == with_reg_flag(
            s,
            x as int,
            ((s.gpr[y as int] - s.gpr[x as int]) % 256) as u8,
            if s.gpr[y as int] >= s.gpr[x as int] {
                1u8
            } else {
                0u8
            },
        ),
        Instruction::ShiftRight { x } => r == Ok::<(), CpuError>(()) && post == with_reg_flag(
            s,
            x as int,
            (s.gpr[x as int] / 2) as u8,
            (s.gpr[x as int] % 2) as u8,
        ),
        Instruction::ShiftLeft { x } => r == Ok::<(), CpuError>(()) && post == with_reg_flag(
            s,
            x as int,
            ((s.gpr[x as int] * 2) % 256) as u8,
            (s.gpr[x as int] / 128) as u8,
        ),
        Instruction::SetIndex { addr } => r == Ok::<(), CpuError>(()) && post == (CpuView {
            index: addr as int,
            ..s
        }),
        Instruction::AddIndex { x } => r == Ok::<(), CpuError>(()) && post == (CpuView {
            index: (s.index + s.gpr[x as int]) % 0x10000,
            ..s
        }),
        Instruction::Random { x, byte } => r == Ok::<(), CpuError>(()) && post.gpr[x as int]
            <= byte && post == with_reg(s, x as int, post.gpr[x as int]),
        Instruction::Draw { x, y, n } => if s.index + n > memory::MEM_SIZE {
            post == pre && r == Err::<(), CpuError>(
                CpuError::MemoryOutOfBounds { address: pre.index as u16 },
            )
        } else {
            r == Ok::<(), CpuError>(()) && post == draw_result(s, s.gpr[x as int], s.gpr[y as int], n)
        },
        Instruction::GetTimer { x } => r == Ok::<(), CpuError>(()) && post == with_reg(
            s,
            x as int,
            s.timer,
        ),
        Instruction::SetTimer { x } => r == Ok::<(), CpuError>(()) && post == (CpuView {
            timer: s.gpr[x as int],
            ..s
        }),
        Instruction::Font { x } => r == Ok::<(), CpuError>(()) && post == (CpuView {
            index: (s.gpr[x as int] as int % 16) * memory::GLYPH_SIZE,
            ..s
        }),
        Instruction::StoreBcd { x } => if s.index + 3 > memory::MEM_SIZE {
            post == pre && r == Err::<(), CpuError>(
                CpuError::MemoryOutOfBounds { address: pre.index as u16 },
            )
        } else {
            r == Ok::<(), CpuError>(()) && post == (CpuView {
                mem: bcd_mem(s.mem, s.index, s.gpr[x as int]),
                ..s
            })
        },
        Instruction::StoreRegs { x } => if s.index + x + 1 > memory::MEM_SIZE {
            post == pre && r == Err::<(), CpuError>(
                CpuError::MemoryOutOfBounds { address: pre.index as u16 },
            )
        } else {
            r == Ok::<(), CpuError>(()) && post == (CpuView {
                mem: stored_mem(s.mem, s.gpr, s.index, x as int),
                ..s
            })
        },
        Instruction::LoadRegs { x } => if s.index + x + 1 > memory::MEM_SIZE {
            post == pre && r == Err::<(), CpuError>(
                CpuError::MemoryOutOfBounds { address: pre.index as u16 },
            )
        } else {
            r == Ok::<(), CpuError>(()) && post == (CpuView {
                gpr: loaded_gpr(s.gpr, s.mem, s.index, x as int),
                ..s
            })
        },
        Instruction::Unknown => post == pre && r == Err::<(), CpuError>(
            CpuError::UnknownOpcode { opcode: w, address: pre.pc as u16 },
        ),
    }
}

/// One full fetch-decode-execute cycle: if the program counter leaves no
/// room to fetch a word, the cycle fails and changes nothing; otherwise the
/// word at the program counter is executed as [`instr_rel`] says.
pub open spec fn step_rel(pre: CpuView, post: CpuView, r: Result<(), CpuError>) -> bool {
    if pre.pc + memory::WORD_SIZE > memory::MEM_SIZE {
        post == pre && r == Err::<(), CpuError>(
            CpuError::MemoryOutOfBounds { address: pre.pc as u16 },
        )
    } else {
        instr_rel(pre, word_at(pre.mem, pre.pc), post, r)
    }
}

/// The machine: register file, program counter, index register, stack
/// pointer, and the memory, display and delay timer it owns.
pub struct Cpu {
    gpr: Vec<u8>,
    program_counter: u16,
    index: u16,
    stack_pointer: u16,
    memory: Memory,
    display: Display,
    delay_timer: Timer,
}

impl View for Cpu {
    type V = CpuView;

    closed spec fn view(&self) -> CpuView {
        CpuView {
            gpr: self.gpr@,
            pc: self.program_counter as int,
            index: self.index as int,
            sp: self.stack_pointer as int,
            mem: self.memory@,
            disp: self.display@,
            timer: self.delay_timer@,
        }
    }
}

impl Cpu {
    /// Builds a machine loaded with the program image `rom`: memory holds
    /// the font and the image, execution starts at the program base, and
    /// everything else is zero. Fails if the image does not fit.
    pub fn new(rom: Vec<u8>) -> (r: Result<Cpu, CpuError>)
        ensures
            rom@.len() <= memory::MEM_SIZE - memory::PROGRAM_BASE ==> (r matches Ok(c) && c@
                == init_view(rom@) && wf(c@)),
            rom@.len() > memory::MEM_SIZE - memory::PROGRAM_BASE ==> (r matches Err(e) && e
                == CpuError::ProgramTooLarge { len: rom@.len() as usize }),
    {
        let mem = match Memory::new(&rom) {
            Ok(m) => m,
            Err(e) => {
                return Err(e);
            },
        };
        let mut gpr: Vec<u8> = Vec::new();
        while gpr.len() < 16
            invariant
                gpr@.len() <= 16,
                forall|i: int| 0 <= i < gpr@.len() ==> gpr@[i] == 0u8,
            decreases 16 - gpr@.len(),
        {
            gpr.push(0u8);
        }
        let cpu = Cpu {
            gpr,
            program_counter: 512,
            index: 0,
            stack_pointer: 4096,
            memory: mem,
            display: Display::new(),
            delay_timer: Timer::new(),
        };
        proof {
            assert(cpu@.gpr =~= init_view(rom@).gpr);
            assert(cpu@ =~= init_view(rom@));
        }
        Ok(cpu)
    }

    /// Pushes a word: moves the stack pointer down one slot and writes the
    /// word there, big-endian.
    fn push(&mut self, value: u16)
        requires
            wf(old(self)@),
            old(self)@.sp - memory::WORD_SIZE >= memory::STACK_FLOOR,
        ensures
            final(self)@ == (CpuView {
                sp: old(self)@.sp - memory::WORD_SIZE,
                mem: write_word_spec(old(self)@.mem, old(self)@.sp - memory::WORD_SIZE, value),
                ..old(self)@
            }),
    {
        self.stack_pointer = self.stack_pointer - 2;
        self.memory.write_u16_at(value, self.stack_pointer as usize);
    }

    /// Pops a word: reads the word at the stack pointer and moves the
    /// pointer up one slot.
    fn pop(&mut self) -> (v: u16)
        requires
            wf(old(self)@),
            old(self)@.sp + memory::WORD_SIZE <= memory::STACK_TOP,
        ensures
            v == word_at(old(self)@.mem, old(self)@.sp),
            final(self)@ == (CpuView { sp: old(self)@.sp + memory::WORD_SIZE, ..old(self)@ }),
    {
        let v = self.memory.read_u16_at(self.stack_pointer as usize);
        self.stack_pointer = self.stack_pointer + 2;
        v
    }

    /// A subroutine call: pushes the current program counter as the return
    /// address and jumps to `addr`.
    fn call(&mut self, addr: u16)
        requires
            wf(old(self)@),
            old(self)@.sp - memory::WORD_SIZE >= memory::STACK_FLOOR,
        ensures
            final(self)@ == (CpuView {
                pc: addr as int,
                sp: old(self)@.sp - memory::WORD_SIZE,
                mem: write_word_spec(
                    old(self)@.mem,
                    old(self)@.sp - memory::WORD_SIZE,
                    old(self)@.pc as u16,
                ),
                ..old(self)@
            }),
    {
        let pc = self.program_counter;
        self.push(pc);
        self.program_counter = addr;
    }

    /// A subroutine return: pops the return address into the program
    /// counter.
    fn ret(&mut self)
        requires
            wf(old(self)@),
            old(self)@.sp + memory::WORD_SIZE <= memory::STACK_TOP,
        ensures
            final(self)@ == (CpuView {
                pc: word_at(old(self)@.mem, old(self)@.sp) as int,
                sp: old(self)@.sp + memory::WORD_SIZE,
                ..old(self)@
            }),
    {
        let v = self.pop();
        self.program_counter = v;
    }

    /// Advances the program counter one extra instruction when `predicate`
    /// holds: the skip half of the conditional-skip instructions.
    fn skip_if(&mut self, predicate: bool)
        requires
            wf(old(self)@),
            old(self)@.pc + memory::WORD_SIZE < 0x10000,
        ensures
            final(self)@ == (CpuView {
                pc: if predicate {
                    old(self)@.pc + memory::WORD_SIZE
                } else {
                    old(self)@.pc
                },
                ..old(self)@
            }),
    {
        if predicate {
            self.program_counter = self.program_counter + 2;
        }
    }

    /// Stores the three decimal digits of `number` at the index register.
    fn bcd(&mut self, number: u8)
        requires
            wf(old(self)@),
            old(self)@.index + 3 <= memory::MEM_SIZE,
        ensures
            final(self)@ == (CpuView {
                mem: bcd_mem(old(self)@.mem, old(self)@.index, number),
                ..old(self)@
            }),
    {
        let base = self.index as usize;
        self.memory.write_byte(number / 100, base);
        self.memory.write_byte(number / 10 % 10, base + 1);
        self.memory.write_byte(number % 10, base + 2);
    }

    /// Reads the `n`-row sprite at the index register, XOR-blits it at
    /// `(x, y)`, and records the collision flag in `VF`.
    fn draw(&mut self, x: u8, y: u8, n: u8)
        requires
            wf(old(self)@),
            n <= 15,
            old(self)@.index + n <= memory::MEM_SIZE,
        ensures
            final(self)@ == draw_result(old(self)@, x, y, n),
    {
        let sprite = self.memory.read_range(self.index as usize, n as usize);
        let collision = self.display.draw(&sprite, x, y);
        self.gpr.set(15, if collision { 1 } else { 0 });
    }

    /// Loads registers `0..=x` from memory at the index register.
    fn load_regs(&mut self, x: u8)
        requires
            wf(old(self)@),
            x < 16,
            old(self)@.index + x + 1 <= memory::MEM_SIZE,
        ensures
            final(self)@ == (CpuView {
                gpr: loaded_gpr(old(self)@.gpr, old(self)@.mem, old(self)@.index, x as int),
                ..old(self)@
            }),
    {
        let ghost s0 = self@;
        let base = self.index as usize;
        let count = x as usize + 1;
        let mut k: usize = 0;
        while k < count
            invariant
                wf(s0),
                k <= count,
                count == x as int + 1,
                x < 16,
                s0.index + count <= memory::MEM_SIZE,
                base == s0.index,
                self@ == (CpuView { gpr: self@.gpr, ..s0 }),
                self@.gpr.len() == 16,
                forall|i: int| 0 <= i < k ==> self@.gpr[i] == s0.mem[base + i],
                forall|i: int| k <= i < 16 ==> self@.gpr[i] == s0.gpr[i],
            decreases count - k,
        {
            let b = self.memory.read_byte(base + k);
            self.gpr.set(k, b);
            k = k + 1;
        }
        proof {
            assert(self@.gpr =~= loaded_gpr(s0.gpr, s0.mem, s0.index, x as int));
            assert(self@ =~= CpuView {
                gpr: loaded_gpr(s0.gpr, s0.mem, s0.index, x as int),
                ..s0
            });
        }
    }

    /// Stores registers `0..=x` into memory at the index register.
    fn store_regs(&mut self, x: u8)
        requires
            wf(old(self)@),
            x < 16,
            old(self)@.index + x + 1 <= memory::MEM_SIZE,
        ensures
            final(self)@ == (CpuView {
                mem: stored_mem(old(self)@.mem, old(self)@.gpr, old(self)@.index, x as int),
                ..old(self)@
            }),
    {
        let ghost s0 = self@;
        let base = self.index as usize;
        let count = x as usize + 1;
        let mut k: usize = 0;
        while k < count
            invariant
                wf(s0),
                k <= count,
                count == x as int + 1,
                x < 16,
                s0.index + count <= memory::MEM_SIZE,
                base == s0.index,
                self@ == (CpuView { mem: self@.mem, ..s0 }),
                self@.mem.len() == s0.mem.len(),
                forall|a: int| base <= a < base + k ==> self@.mem[a] == s0.gpr[a - base],
                forall|a: int|
                    0 <= a < memory::MEM_SIZE && !(base <= a < base + k) ==> self@.mem[a]
                        == s0.mem[a],
            decreases count - k,
        {
            let b = self.gpr[k];
            self.memory.write_byte(b, base + k);
            k = k + 1;
        }
        proof {
            assert(self@.mem =~= stored_mem(s0.mem, s0.gpr, s0.index, x as int));
            assert(self@ =~= CpuView {
                mem: stored_mem(s0.mem, s0.gpr, s0.index, x as int),
                ..s0
            });
        }
    }

    /// One fetch-decode-execute cycle: fetches the word at the program
    /// counter, decodes it against the instruction table, and executes its
    /// semantics, exactly as [`step_rel`] states. On any failure the
    /// machine state is left as it was.
    pub fn execute(&mut self) -> (r: Result<(), CpuError>)
        requires
            wf(old(self)@),
        ensures
            wf(final(self)@),
            step_rel(old(self)@, final(self)@, r),
    {
        let pc = self.program_counter;
        if pc > 4094 {
            return Err(CpuError::MemoryOutOfBounds { address: pc });
        }
        let w = self.memory.read_u16_at(pc as usize);
        let instr = decode(Opcode(w));
        if let Instruction::Unknown = instr {
            return Err(CpuError::UnknownOpcode { opcode: w, address: pc });
        }
        self.program_counter = pc + 2;
        match instr {
            Instruction::ClearScreen => {
                self.display.clear();
            },
            Instruction::Return => {
                if self.stack_pointer > 4094 {
                    self.program_counter = pc;
                    return Err(CpuError::StackUnderflow);
                }
                self.ret();
            },
            Instruction::Jump { addr } => {
                self.program_counter = addr;
            },
            Instruction::JumpV0 { addr } => {
                self.program_counter = addr + self.gpr[0] as u16;
            },
            Instruction::Call { addr } => {
                if self.stack_pointer < 4066 {
                    self.program_counter = pc;
                    return Err(CpuError::StackOverflow);
                }
                self.call(addr);
            },
            Instruction::SkipEqImm { x, byte } => {
                let cond = self.gpr[x as usize] == byte;
                self.skip_if(cond);
            },
            Instruction::SkipNeImm { x, byte } => {
                let cond = self.gpr[x as usize] != byte;
                self.skip_if(cond);
            },
            Instruction::SkipEqReg { x, y } => {
                let cond = self.gpr[x as usize] == self.gpr[y as usize];
                self.skip_if(cond);
            },
            Instruction::SkipNeReg { x, y } => {
                let cond = self.gpr[x as usize] != self.gpr[y as usize];
                self.skip_if(cond);
            },
            Instruction::SetImm { x, byte } => {
                self.gpr.set(x as usize, byte);
            },
            Instruction::AddImm { x, byte } => {
                let v = self.gpr[x as usize];
                let sum = v as u16 + byte as u16;
                self.gpr.set(x as usize, (sum % 256) as u8);
            },
            Instruction::SetReg { x, y } => {
                let v = self.gpr[y as usize];
                self.gpr.set(x as usize, v);
            },
            Instruction::Or { x, y } => {
                let v = self.gpr[x as usize] | self.gpr[y as usize];
                self.gpr.set(x as usize, v);
            },
            Instruction::And { x, y } => {
                let v = self.gpr[x as usize] & self.gpr[y as usize];
                self.gpr.set(x as usize, v);
            },
            Instruction::Xor { x, y } => {
                let v = self.gpr[x as usize] ^ self.gpr[y as usize];
                self.gpr.set(x as usize, v);
            },
            Instruction::AddReg { x, y } => {
                let a = self.gpr[x as usize];
                let b = self.gpr[y as usize];
                let sum = a as u16 + b as u16;
                self.gpr.set(x as usize, (sum % 256) as u8);
                self.gpr.set(15, if sum >= 256 { 1 } else { 0 });
            },
            Instruction::SubReg { x, y } => {
                let a = self.gpr[x as usize];
                let b = self.gpr[y as usize];
                let diff = (a as u16 + 256 - b as u16) % 256;
                self.gpr.set(x as usize, diff as u8);
                self.gpr.set(15, if a >= b { 1 } else { 0 });
                proof {
                    lemma_wrap_sub(a, b);
                }
            },
            Instruction::SubRev { x, y } => {
                let a = self.gpr[x as usize];
                let b = self.gpr[y as usize];
                let diff = (b as u16 + 256 - a as u16) % 256;
                self.gpr.set(x as usize, diff as u8);
                self.gpr.set(15, if b >= a { 1 } else { 0 });
                proof {
                    lemma_wrap_sub(b, a);
                }
            },
            Instruction::ShiftRight { x } => {
                let v = self.gpr[x as usize];
                self.gpr.set(x as usize, v / 2);
                self.gpr.set(15, v % 2);
            },
            Instruction::ShiftLeft { x } => {
                let v = self.gpr[x as usize];
                self.gpr.set(x as usize, ((v as u16 * 2) % 256) as u8);
                self.gpr.set(15, v / 128);
            },
            Instruction::SetIndex { addr } => {
                self.index = addr;
            },
            Instruction::AddIndex { x } => {
                let t = self.index as u32 + self.gpr[x as usize] as u32;
                self.index = (t % 0x10000) as u16;
            },
            Instruction::Random { x, byte } => {
                let v = random_in_range(byte);
                self.gpr.set(x as usize, v);
            },
            Instruction::Draw { x, y, n } => {
                if self.index as usize + n as usize > 4096 {
                    self.program_counter = pc;
                    return Err(CpuError::MemoryOutOfBounds { address: self.index });
                }
                let vx = self.gpr[x as usize];
                let vy = self.gpr[y as usize];
                self.draw(vx, vy, n);
            },
            Instruction::GetTimer { x } => {
                let t = self.delay_timer.get();
                self.gpr.set(x as usize, t);
            },
            Instruction::SetTimer { x } => {
                let v = self.gpr[x as usize];
                self.delay_timer.set(v);
            },
            Instruction::Font { x } => {
                let v = self.gpr[x as usize];
                self.index = (v % 16) as u16 * 5;
            },
            Instruction::StoreBcd { x } => {
                if self.index as usize + 3 > 4096 {
                    self.program_counter = pc;
                    return Err(CpuError::MemoryOutOfBounds { address: self.index });
                }
                let v = self.gpr[x as usize];
                self.bcd(v);
            },
            Instruction::StoreRegs { x } => {
                if self.index as usize + x as usize + 1 > 4096 {
                    self.program_counter = pc;
                    return Err(CpuError::MemoryOutOfBounds { address: self.index });
                }
                self.store_regs(x);
            },
            Instruction::LoadRegs { x } => {
                if self.index as usize + x as usize + 1 > 4096 {
                    self.program_counter = pc;
                    return Err(CpuError::MemoryOutOfBounds { address: self.index });
                }
                self.load_regs(x);
            },
            Instruction::Unknown => {
                proof {
                    assert(false);
                }
            },
        }
        Ok(())
    }

    /// The value of general-purpose register `x`.
    pub fn register(&self, x: u8) -> (v: u8)
        requires
            wf(self@),
            x < 16,
        ensures
            v == self@.gpr[x as int],
    {
        self.gpr[x as usize]
    }

    /// The program counter.
    pub fn program_counter(&self) -> (v: u16)
        ensures
            v as int == self@.pc,
    {
        self.program_counter
    }

    /// The index register.
    pub fn index_register(&self) -> (v: u16)
        ensures
            v as int == self@.index,
    {
        self.index
    }

    /// The stack pointer.
    pub fn stack_pointer(&self) -> (v: u16)
        ensures
            v as int == self@.sp,
    {
        self.stack_pointer
    }

    /// The byte of memory at `addr`.
    pub fn memory_byte(&self, addr: usize) -> (b: u8)
        requires
            wf(self@),
            addr < memory::MEM_SIZE,
        ensures
            b == self@.mem[addr as int],
    {
        self.memory.read_byte(addr)
    }

    /// Whether the display cell at column `x`, row `y` is lit.
    pub fn pixel(&self, x: usize, y: usize) -> (lit: bool)
        requires
            wf(self@),
            x < display::WIDTH,
            y < display::HEIGHT,
        ensures
            lit == self@.disp[y as int * display::WIDTH as int + x as int],
    {
        self.display.pixel(x, y)
    }

    /// The delay timer's current value.
    pub fn delay_timer(&self) -> (v: u8)
        ensures
            v == self@.timer,
    {
        self.delay_timer.get()
    }

    /// One tick of the host's timer clock: decrements the delay timer,
    /// floored at zero; nothing else changes. The host calls this on its
    /// own real-time cadence, independent of the instruction cycle.
    pub fn tick_timer(&mut self)
        ensures
            final(self)@ == (CpuView {
                timer: if old(self)@.timer > 0 {
                    (old(self)@.timer - 1) as u8
                } else {
                    0u8
                },
                ..old(self)@
            }),
    {
        self.delay_timer.decrement();
    }
}

/// Wrapping 8-bit subtraction computed without underflow: adding 256
/// before subtracting leaves the result unchanged modulo 256.
proof fn lemma_wrap_sub(a: u8, b: u8)
    ensures
        (a as int + 256 - b as int) % 256 == (a as int - b as int) % 256,
        0 <= (a as int - b as int) % 256 < 256,
{
    vstd::arithmetic::div_mod::lemma_mod_add_multiples_vanish(a as int - b as int, 256);
    vstd::arithmetic::div_mod::lemma_mod_bound(a as int - b as int, 256);
}

} // verus!
