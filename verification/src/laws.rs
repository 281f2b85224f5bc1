//! The general laws of the instruction set, proved once and for all from
//! the step relation and the display specification.

use vstd::prelude::*;
use crate::cpu::{loaded_gpr, stored_mem, step_rel, wf, CpuView};
use crate::display::{
    covered, draw_spec, empty_grid, has_collision, lemma_covered_witness, cell_index, PIXEL_COUNT,
};
use crate::errors::CpuError;
use crate::memory;
use crate::memory::{lemma_word_roundtrip, word_at};
use crate::opcode::{spec_decode, Instruction};

verus! {

/// The register add instruction wraps: for any register values `a` and `b`,
/// adding `Vy` into `Vx` leaves `Vx` holding `(a + b) mod 256`. Register 15
/// is excluded as a destination: it is the flag register and takes the
/// carry bit instead.
pub proof fn law_add_wraps(pre: CpuView, post: CpuView, x: u8, y: u8)
    requires
        wf(pre),
        spec_decode(word_at(pre.mem, pre.pc)) == (Instruction::AddReg { x, y }),
        x < 16,
        y < 16,
        x != 15,
        step_rel(pre, post, Ok(())),
    ensures
        post.gpr[x as int] == (pre.gpr[x as int] + pre.gpr[y as int]) % 256,
{
}

/// The register subtract instruction wraps: `Vx` ends holding
/// `(a - b) mod 256`, where `a` and `b` are the old values of `Vx` and
/// `Vy`. Register 15 is excluded as a destination: it takes the
/// not-borrow bit.
pub proof fn law_sub_wraps(pre: CpuView, post: CpuView, x: u8, y: u8)
    requires
        wf(pre),
        spec_decode(word_at(pre.mem, pre.pc)) == (Instruction::SubReg { x, y }),
        x < 16,
        y < 16,
        x != 15,
        step_rel(pre, post, Ok(())),
    ensures
        post.gpr[x as int] == (pre.gpr[x as int] - pre.gpr[y as int]) % 256,
{
}

/// The reversed subtract instruction wraps the other way: `Vx` ends
/// holding `(b - a) mod 256`. Register 15 is excluded as a destination:
/// it takes the not-borrow bit.
pub proof fn law_sub_rev_wraps(pre: CpuView, post: CpuView, x: u8, y: u8)
    requires
        wf(pre),
        spec_decode(word_at(pre.mem, pre.pc)) == (Instruction::SubRev { x, y }),
        x < 16,
        y < 16,
        x != 15,
        step_rel(pre, post, Ok(())),
    ensures
        post.gpr[x as int] == (pre.gpr[y as int] - pre.gpr[x as int]) % 256,
{
}

/// The random instruction never exceeds its bound: whatever value the
/// source of randomness produced, `Vx` ends within `[0, byte]`. With a
/// bound of zero the result is therefore always zero.
pub proof fn law_random_bounded(pre: CpuView, post: CpuView, x: u8, byte: u8)
    requires
        wf(pre),
        spec_decode(word_at(pre.mem, pre.pc)) == (Instruction::Random { x, byte }),
        x < 16,
        step_rel(pre, post, Ok(())),
    ensures
        post.gpr[x as int] <= byte,
{
}

/// Storing registers `0..=x` and loading them back through the same index
/// register restores them, whatever happened to the register file in
/// between: the store writes each `Vk` to memory, and the load reads the
/// same bytes back.
pub proof fn law_store_load_roundtrip(
    pre: CpuView,
    post1: CpuView,
    mid: CpuView,
    post2: CpuView,
    x: u8,
)
    requires
        wf(pre),
        spec_decode(word_at(pre.mem, pre.pc)) == (Instruction::StoreRegs { x }),
        x < 16,
        step_rel(pre, post1, Ok(())),
        mid.mem == post1.mem,
        mid.index == post1.index,
        mid.gpr.len() == 16,
        spec_decode(word_at(mid.mem, mid.pc)) == (Instruction::LoadRegs { x }),
        step_rel(mid, post2, Ok(())),
    ensures
        forall|k: int| 0 <= k <= x ==> post2.gpr[k] == pre.gpr[k],
{
    assert(post1.mem == stored_mem(pre.mem, pre.gpr, pre.index, x as int));
    assert(post2.gpr == loaded_gpr(mid.gpr, mid.mem, mid.index, x as int));
}

/// A call followed by a return resumes at the instruction immediately
/// after the call, with the stack pointer back where it was: the call
/// pushes the advanced program counter, and the return pops that very
/// word.
pub proof fn law_call_ret(pre: CpuView, mid: CpuView, post: CpuView, addr: u16)
    requires
        wf(pre),
        spec_decode(word_at(pre.mem, pre.pc)) == (Instruction::Call { addr }),
        step_rel(pre, mid, Ok(())),
        spec_decode(word_at(mid.mem, mid.pc)) == Instruction::Return,
        step_rel(mid, post, Ok(())),
    ensures
        post.pc == pre.pc + memory::WORD_SIZE,
        post.sp == pre.sp,
{
    let v = (pre.pc + memory::WORD_SIZE) as u16;
    lemma_word_roundtrip(pre.mem, pre.sp - memory::WORD_SIZE, v);
}

/// Drawing on a cleared display never reports a collision: a collision
/// needs a previously-lit cell, and there is none.
pub proof fn law_draw_on_clear_no_collision(pre: CpuView, post: CpuView, x: u8, y: u8, n: u8)
    requires
        wf(pre),
        pre.disp == empty_grid(),
        spec_decode(word_at(pre.mem, pre.pc)) == (Instruction::Draw { x, y, n }),
        x < 16,
        y < 16,
        step_rel(pre, post, Ok(())),
    ensures
        post.gpr[15] == 0,
{
    let s = CpuView { pc: pre.pc + memory::WORD_SIZE, ..pre };
    let sprite = s.mem.subrange(s.index, s.index + n);
    assert(forall|p: int| 0 <= p < PIXEL_COUNT ==> !empty_grid()[p]);
    assert(!has_collision(s.disp, sprite, s.gpr[x as int] as int, s.gpr[y as int] as int));
}

/// XOR-blitting the same sprite twice at the same position restores the
/// grid: every cell the first blit flipped, the second flips back.
pub proof fn law_draw_twice_restores(g: Seq<bool>, s: Seq<u8>, x: int, y: int)
    requires
        g.len() == PIXEL_COUNT,
    ensures
        draw_spec(draw_spec(g, s, x, y), s, x, y) == g,
{
    assert(draw_spec(draw_spec(g, s, x, y), s, x, y) =~= g);
}

/// A second blit of the same sprite at the same position onto a grid that
/// started clear reports a collision, provided the sprite sets at least
/// one bit within its rows: the first blit lit that cell, and the second
/// turns it off.
pub proof fn law_second_draw_collides(s: Seq<u8>, x: int, y: int, i: int, j: int)
    requires
        0 <= i < s.len(),
        s.len() <= 15,
        0 <= j < 8,
        crate::display::row_bit(s[i], j),
    ensures
        has_collision(draw_spec(empty_grid(), s, x, y), s, x, y),
{
    lemma_covered_witness(s, x, y, i, j);
    let p = cell_index(x + j, y + i);
    let g1 = draw_spec(empty_grid(), s, x, y);
    assert(g1[p] && covered(s, x, y, p));
    assert(has_collision(g1, s, x, y));
}

} // verus!
