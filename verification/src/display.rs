//! The monochrome framebuffer: a fixed 64x32 grid of lit/unlit cells.
//! Sprites are blitted by bitwise XOR with wraparound at both edges; the
//! draw operation reports whether it turned any previously-lit cell off
//! (the collision flag). The only other mutation is a full clear.

use vstd::prelude::*;
use vstd::arithmetic::div_mod::{
    lemma_fundamental_div_mod_converse,
    lemma_mod_add_multiples_vanish,
    lemma_mod_bound,
    lemma_small_mod,
    lemma_sub_mod_noop,
    lemma_sub_mod_noop_right,
};

verus! {

/// Width of the pixel grid.
pub const WIDTH: usize = 64;
/// Height of the pixel grid.
pub const HEIGHT: usize = 32;
/// Number of cells in the grid; cell `(x, y)` lives at index `y * WIDTH + x`.
pub const PIXEL_COUNT: usize = 2048;

/// The all-unlit grid.
pub open spec fn empty_grid() -> Seq<bool> {
    Seq::new(PIXEL_COUNT as nat, |p: int| false)
}

/// Bit `j` of a sprite row, counted from the left: bit 0 is the most
/// significant bit and lands leftmost on the screen.
pub open spec fn row_bit(b: u8, j: int) -> bool {
    if j == 0 {
        b as int / 128 % 2 == 1
    } else if j == 1 {
        b as int / 64 % 2 == 1
    } else if j == 2 {
        b as int / 32 % 2 == 1
    } else if j == 3 {
        b as int / 16 % 2 == 1
    } else if j == 4 {
        b as int / 8 % 2 == 1
    } else if j == 5 {
        b as int / 4 % 2 == 1
    } else if j == 6 {
        b as int / 2 % 2 == 1
    } else {
        b as int % 2 == 1
    }
}

/// Whether blitting sprite `s` at position `(x, y)` flips the cell at grid
/// index `p`. The cell's row and column are mapped back, modulo the grid
/// dimensions, to the sprite row and column that would land on them; the
/// cell is flipped exactly when that sprite bit exists and is set.
pub open spec fn covered(s: Seq<u8>, x: int, y: int, p: int) -> bool {
    let r = p / WIDTH as int;
    let c = p % WIDTH as int;
    let i = (r - y) % HEIGHT as int;
    let j = (c - x) % WIDTH as int;
    i < s.len() && j < 8 && row_bit(s[i], j)
}

/// The grid after sprite `s` is XOR-blitted at `(x, y)`: each cell is
/// flipped exactly when a set sprite bit lands on it.
pub open spec fn draw_spec(g: Seq<bool>, s: Seq<u8>, x: int, y: int) -> Seq<bool> {
    Seq::new(PIXEL_COUNT as nat, |p: int| g[p] != covered(s, x, y, p))
}

/// Whether blitting sprite `s` at `(x, y)` onto grid `g` turns some
/// previously-lit cell off: a lit cell that a set sprite bit lands on.
pub open spec fn has_collision(g: Seq<bool>, s: Seq<u8>, x: int, y: int) -> bool {
    exists|p: int| 0 <= p < PIXEL_COUNT && g[p] && covered(s, x, y, p)
}

/// The grid index of the cell at column `x`, row `y`, both taken modulo
/// the grid dimensions.
pub open spec fn cell_index(x: int, y: int) -> int {
    (y % HEIGHT as int) * WIDTH as int + x % WIDTH as int
}

/// A set sprite bit at row `i`, column `j` lands on the grid cell at row
/// `(y + i) % HEIGHT`, column `(x + j) % WIDTH`, and flips it.
pub proof fn lemma_covered_witness(s: Seq<u8>, x: int, y: int, i: int, j: int)
    requires
        0 <= i < s.len(),
        s.len() <= 15,
        0 <= j < 8,
        row_bit(s[i], j),
    ensures
        covered(s, x, y, cell_index(x + j, y + i)),
        0 <= cell_index(x + j, y + i) < PIXEL_COUNT,
{
    let h = HEIGHT as int;
    let w = WIDTH as int;
    let r = (y + i) % h;
    let c = (x + j) % w;
    let p = r * w + c;
    lemma_mod_bound(y + i, h);
    lemma_mod_bound(x + j, w);
    lemma_fundamental_div_mod_converse(p, w, r, c);
    assert(p / w == r && p % w == c);
    lemma_sub_mod_noop_right(r, y, h);
    lemma_sub_mod_noop(y + i, y, h);
    lemma_small_mod(i as nat, h as nat);
    assert((r - y) % h == i);
    lemma_sub_mod_noop_right(c, x, w);
    lemma_sub_mod_noop(x + j, x, w);
    lemma_small_mod(j as nat, w as nat);
    assert((c - x) % w == j);
}

/// The pixel grid. Its length is fixed at `PIXEL_COUNT` for the lifetime
/// of the machine; the view holds cell `(x, y)` at index `y * WIDTH + x`.
pub struct Display {
    pixels: Vec<bool>,
}

impl View for Display {
    type V = Seq<bool>;

    closed spec fn view(&self) -> Seq<bool> {
        self.pixels@
    }
}

/// A vector of `PIXEL_COUNT` unlit cells.
fn blank_pixels() -> (v: Vec<bool>)
    ensures
        v@ == empty_grid(),
{
    let mut v: Vec<bool> = Vec::new();
    while v.len() < PIXEL_COUNT
        invariant
            v@.len() <= PIXEL_COUNT,
            forall|i: int| 0 <= i < v@.len() ==> v@[i] == false,
        decreases PIXEL_COUNT - v@.len(),
    {
        v.push(false);
    }
    proof {
        assert(v@ =~= empty_grid());
    }
    v
}

/// Bit `j` of sprite row `b`, counted from the left.
fn bit_of(b: u8, j: usize) -> (r: bool)
    requires
        j < 8,
    ensures
        r == row_bit(b, j as int),
{
    let divisor: u8 = if j == 0 {
        128
    } else if j == 1 {
        64
    } else if j == 2 {
        32
    } else if j == 3 {
        16
    } else if j == 4 {
        8
    } else if j == 5 {
        4
    } else if j == 6 {
        2
    } else {
        1
    };
    (b / divisor) % 2 == 1
}

impl Display {
    /// A fresh display with every cell unlit.
    pub fn new() -> (d: Display)
        ensures
            d@ == empty_grid(),
    {
        Display { pixels: blank_pixels() }
    }

    /// Resets every cell to unlit.
    pub fn clear(&mut self)
        ensures
            final(self)@ == empty_grid(),
    {
        self.pixels = blank_pixels();
    }

    /// The cell at column `x`, row `y`.
    pub fn pixel(&self, x: usize, y: usize) -> (lit: bool)
        requires
            self@.len() == PIXEL_COUNT,
            x < WIDTH,
            y < HEIGHT,
        ensures
            lit == self@[y as int * WIDTH as int + x as int],
    {
        self.pixels[y * WIDTH + x]
    }

    /// XOR-blits sprite `sprite` at position `(x, y)`, wrapping at both
    /// edges, and reports whether any previously-lit cell was turned off.
    pub fn draw(&mut self, sprite: &Vec<u8>, x: u8, y: u8) -> (collision: bool)
        requires
            old(self)@.len() == PIXEL_COUNT,
            sprite@.len() <= 15,
        ensures
            final(self)@ == draw_spec(old(self)@, sprite@, x as int, y as int),
            collision == has_collision(old(self)@, sprite@, x as int, y as int),
    {
        let ghost g0 = self@;
        let ghost xi = x as int;
        let ghost yi = y as int;
        let xs = (x as usize) % WIDTH;
        let ys = (y as usize) % HEIGHT;
        let n = sprite.len();
        let mut collision = false;
        let ghost mut wit: int = 0;
        let mut p: usize = 0;
        while p < PIXEL_COUNT
            invariant
                p <= PIXEL_COUNT,
                self@.len() == PIXEL_COUNT,
                sprite@.len() == n <= 15,
                xs == x as int % WIDTH as int,
                ys == y as int % HEIGHT as int,
                xi == x as int,
                yi == y as int,
                forall|q: int|
                    0 <= q < p ==> self@[q] == (g0[q] != covered(sprite@, xi, yi, q)),
                forall|q: int| p <= q < PIXEL_COUNT ==> self@[q] == g0[q],
                collision ==> 0 <= wit < p && g0[wit] && covered(sprite@, xi, yi, wit),
                !collision ==> forall|q: int|
                    0 <= q < p ==> !(g0[q] && covered(sprite@, xi, yi, q)),
            decreases PIXEL_COUNT - p,
        {
            let r = p / WIDTH;
            let c = p % WIDTH;
            let i = (r + HEIGHT - ys) % HEIGHT;
            let j = (c + WIDTH - xs) % WIDTH;
            proof {
                let h = HEIGHT as int;
                let w = WIDTH as int;
                lemma_small_mod(r as nat, h as nat);
                lemma_sub_mod_noop(r as int, yi, h);
                lemma_mod_add_multiples_vanish(r - yi % h, h);
                assert(i as int == (r as int - yi) % h);
                lemma_small_mod(c as nat, w as nat);
                lemma_sub_mod_noop(c as int, xi, w);
                lemma_mod_add_multiples_vanish(c - xi % w, w);
                assert(j as int == (c as int - xi) % w);
            }
            let cov = i < n && j < 8 && bit_of(sprite[i], j);
            proof {
                assert(cov == covered(sprite@, xi, yi, p as int));
            }
            let lit = self.pixels[p];
            if lit && cov {
                collision = true;
                proof {
                    wit = p as int;
                }
            }
            self.pixels.set(p, lit != cov);
            p = p + 1;
        }
        proof {
            assert(self@ =~= draw_spec(g0, sprite@, xi, yi));
            if collision {
                assert(has_collision(g0, sprite@, xi, yi));
            }
        }
        collision
    }
}

} // verus!
