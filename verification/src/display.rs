//! The monochrome pixel grid and its XOR sprite drawing.
//!
//! The grid is modelled as a sequence of 32 rows, each a sequence of 64
//! booleans. Drawing is specified row by row: a sprite row toggles the pixels
//! under its set bits, and a sprite is the rows drawn one after the other.
use vstd::prelude::*;

verus! {

/// Number of pixel columns.
pub const WIDTH: usize = 64;

/// Number of pixel rows.
pub const HEIGHT: usize = 32;

/// A grid has 32 rows of 64 pixels each.
pub open spec fn grid_wf(g: Seq<Seq<bool>>) -> bool {
    &&& g.len() == 32
    &&& forall|r: int| 0 <= r < 32 ==> (#[trigger] g[r]).len() == 64
}

/// The grid with every pixel unset.
pub open spec fn blank() -> Seq<Seq<bool>> {
    Seq::new(32, |r: int| Seq::new(64, |c: int| false))
}

/// Whether bit `j` of a sprite row is set, counting from the most significant
/// bit: bit 0 is the leftmost column of the sprite.
pub open spec fn sprite_bit(byte: u8, j: int) -> bool {
    0 <= j < 8 && (byte >> ((7 - j) as u8)) & 1 == 1
}

/// Whether one of the first `k` bits of the sprite row `byte`, drawn from
/// column `x`, lands on column `c` and is set. The bit that lands on `c` is
/// the one at distance `(c - x) mod 64` from the origin.
pub open spec fn row_hit(byte: u8, x: int, c: int, k: int) -> bool {
    (c - x) % 64 < k && sprite_bit(byte, (c - x) % 64)
}

/// The grid after the first `k` bits of `byte` have been drawn on row `r`
/// from column `x`: every pixel that a set bit lands on is toggled.
pub open spec fn draw_row_upto(g: Seq<Seq<bool>>, x: int, r: int, byte: u8, k: int) -> Seq<
    Seq<bool>,
> {
    Seq::new(
        32,
        |rr: int|
            Seq::new(
                64,
                |cc: int|
                    if rr == r && row_hit(byte, x, cc, k) {
                        !g[rr][cc]
                    } else {
                        g[rr][cc]
                    },
            ),
    )
}

/// The grid after the sprite row `byte` has been drawn on row `r` from
/// column `x`.
pub open spec fn draw_row(g: Seq<Seq<bool>>, x: int, r: int, byte: u8) -> Seq<Seq<bool>> {
    draw_row_upto(g, x, r, byte, 8)
}

/// The grid after the first `k` rows of `sprite` have been drawn with origin
/// column `x` and origin row `y`. Row `i` of the sprite goes to grid row
/// `(y + i) mod 32`.
pub open spec fn draw_rows(g: Seq<Seq<bool>>, x: int, y: int, sprite: Seq<u8>, k: int) -> Seq<
    Seq<bool>,
>
    decreases k,
{
    if k <= 0 {
        g
    } else {
        draw_row(draw_rows(g, x, y, sprite, k - 1), x, (y + k - 1) % 32, sprite[k - 1])
    }
}

/// The grid after the whole sprite has been drawn.
pub open spec fn draw_sprite(g: Seq<Seq<bool>>, x: int, y: int, sprite: Seq<u8>) -> Seq<
    Seq<bool>,
> {
    draw_rows(g, x, y, sprite, sprite.len() as int)
}

/// Bit `j` of sprite row `i` is set and the pixel it lands on is lit in `g`.
pub open spec fn overlaps(g: Seq<Seq<bool>>, x: int, y: int, sprite: Seq<u8>, i: int, j: int) -> bool {
    sprite_bit(sprite[i], j) && g[(y + i) % 32][(x + j) % 64]
}

/// Bit `j` of sprite row `i` is set and the pixel it lands on is lit at the
/// moment row `i` is drawn, so the toggle turns that pixel off.
pub open spec fn erases(g: Seq<Seq<bool>>, x: int, y: int, sprite: Seq<u8>, i: int, j: int) -> bool {
    overlaps(draw_rows(g, x, y, sprite, i), x, y, sprite, i, j)
}

/// Some bit among the first `k` bits of sprite row `i` turns a lit pixel off.
pub open spec fn row_erases_upto(
    g: Seq<Seq<bool>>,
    x: int,
    y: int,
    sprite: Seq<u8>,
    i: int,
    k: int,
) -> bool {
    exists|j: int| 0 <= j < k && j < 8 && #[trigger] erases(g, x, y, sprite, i, j)
}

/// Some bit of the first `k` sprite rows turns a lit pixel off.
pub open spec fn collides_upto(g: Seq<Seq<bool>>, x: int, y: int, sprite: Seq<u8>, k: int) -> bool {
    exists|i: int, j: int| 0 <= i < k && 0 <= j < 8 && #[trigger] erases(g, x, y, sprite, i, j)
}

/// Drawing the sprite turns at least one lit pixel off.
pub open spec fn sprite_collides(g: Seq<Seq<bool>>, x: int, y: int, sprite: Seq<u8>) -> bool {
    collides_upto(g, x, y, sprite, sprite.len() as int)
}

/// The grid `g` with the pixel in row `r`, column `c` toggled.
pub open spec fn toggle(g: Seq<Seq<bool>>, r: int, c: int) -> Seq<Seq<bool>> {
    g.update(r, g[r].update(c, !g[r][c]))
}

/// Bit `j` of a sprite row drawn from column `x` lands on column
/// `(x + j) mod 64` and on no other.
pub proof fn lemma_bit_column(x: int, c: int, j: int)
    requires
        0 <= c < 64,
        0 <= j < 8,
    ensures
        (c - x) % 64 == j <==> c == (x + j) % 64,
{
}

/// Drawing one more bit of a row either toggles the pixel the bit lands on,
/// which no earlier bit of the row has touched, or changes nothing.
pub proof fn lemma_draw_bit(g: Seq<Seq<bool>>, x: int, r: int, byte: u8, j: int)
    requires
        grid_wf(g),
        0 <= r < 32,
        0 <= j < 8,
    ensures
        draw_row_upto(g, x, r, byte, j)[r][(x + j) % 64] == g[r][(x + j) % 64],
        sprite_bit(byte, j) ==> draw_row_upto(g, x, r, byte, j + 1) == toggle(
            draw_row_upto(g, x, r, byte, j),
            r,
            (x + j) % 64,
        ),
        !sprite_bit(byte, j) ==> draw_row_upto(g, x, r, byte, j + 1) == draw_row_upto(
            g,
            x,
            r,
            byte,
            j,
        ),
{
    let c = (x + j) % 64;
    let a = draw_row_upto(g, x, r, byte, j);
    let b = draw_row_upto(g, x, r, byte, j + 1);
    lemma_bit_column(x, c, j);
    assert forall|rr: int, cc: int| 0 <= rr < 32 && 0 <= cc < 64 implies b[rr][cc] == (if sprite_bit(
        byte,
        j,
    ) {
        toggle(a, r, c)[rr][cc]
    } else {
        a[rr][cc]
    }) by {
        lemma_bit_column(x, cc, j);
    }
    if sprite_bit(byte, j) {
        assert(b =~~= toggle(a, r, c));
    } else {
        assert(b =~~= a);
    }
}

/// Drawing rows of a sprite on a grid gives a grid.
pub proof fn lemma_draw_rows_grid(g: Seq<Seq<bool>>, x: int, y: int, sprite: Seq<u8>, k: int)
    requires
        grid_wf(g),
    ensures
        grid_wf(draw_rows(g, x, y, sprite, k)),
    decreases k,
{
    if k > 0 {
        lemma_draw_rows_grid(g, x, y, sprite, k - 1);
    }
}

/// The 64 by 32 monochrome display.
pub struct Display {
    states: [[bool; 64]; 32],
}

impl View for Display {
    type V = Seq<Seq<bool>>;

    closed spec fn view(&self) -> Seq<Seq<bool>> {
        Seq::new(32, |r: int| self.states[r]@)
    }
}

impl Display {
    /// The view of a display always has the shape of a grid.
    pub proof fn view_is_grid(&self)
        ensures
            grid_wf(self@),
    {
    }

    /// A display with every pixel unset.
    pub fn new() -> (d: Display)
        ensures
            d@ == blank(),
    {
        let d = Display { states: [[false; 64]; 32] };
        assert(d@ =~~= blank());
        d
    }

    /// Unsets every pixel.
    pub fn clear(&mut self)
        ensures
            final(self)@ == blank(),
    {
        self.states = [[false; 64]; 32];
        assert(self@ =~~= blank());
    }

    /// The state of the pixel in row `row`, column `col`.
    pub fn pixel(&self, row: usize, col: usize) -> (lit: bool)
        requires
            row < 32,
            col < 64,
        ensures
            lit == self@[row as int][col as int],
    {
        self.states[row][col]
    }

    /// Draws `mem` as a sprite of 8-pixel rows with its top left corner at
    /// column `x mod 64`, row `y mod 32`, wrapping at the edges. Each set bit
    /// toggles the pixel it lands on. Returns whether a lit pixel was turned
    /// off.
    pub fn draw(&mut self, x: usize, y: usize, mem: &[u8]) -> (collision: bool)
        ensures
            final(self)@ == draw_sprite(old(self)@, x as int, y as int, mem@),
            collision == sprite_collides(old(self)@, x as int, y as int, mem@),
    {
        let ghost g0 = self@;
        let ghost xi = x as int;
        let ghost yi = y as int;
        let x0: usize = x % 64;
        let y0: usize = y % 32;
        let mut unset = false;
        let mut i: usize = 0;
        while i < mem.len()
            invariant
                i <= mem.len(),
                x0 == xi % 64,
                y0 == yi % 32,
                self@ == draw_rows(g0, xi, yi, mem@, i as int),
                unset == collides_upto(g0, xi, yi, mem@, i as int),
            decreases mem.len() - i,
        {
            let data: u8 = mem[i];
            let row: usize = (y0 + i % 32) % 32;
            let ghost gi = self@;
            assert(self@ =~~= draw_row_upto(gi, xi, row as int, data, 0));
            let mut j: usize = 0;
            while j < 8
                invariant
                    j <= 8,
                    i < mem.len(),
                    row < 32,
                    row == (yi + i) % 32,
                    x0 == xi % 64,
                    data == mem@[i as int],
                    gi == draw_rows(g0, xi, yi, mem@, i as int),
                    grid_wf(gi),
                    self@ == draw_row_upto(gi, xi, row as int, data, j as int),
                    unset == (collides_upto(g0, xi, yi, mem@, i as int) || row_erases_upto(
                        g0,
                        xi,
                        yi,
                        mem@,
                        i as int,
                        j as int,
                    )),
                decreases 8 - j,
            {
                let col: usize = (x0 + j) % 64;
                assert(col == (xi + j) % 64);
                if ((data >> (7 - j as u8)) & 1) == 1 {
                    if self.states[row][col] {
                        unset = true;
                    }
                    self.states[row][col] ^= true;
                }
                proof {
                    lemma_draw_bit(gi, xi, row as int, data, j as int);
                    assert(row_erases_upto(g0, xi, yi, mem@, i as int, j + 1) == (row_erases_upto(
                        g0,
                        xi,
                        yi,
                        mem@,
                        i as int,
                        j as int,
                    ) || erases(g0, xi, yi, mem@, i as int, j as int)));
                }
                j += 1;
            }
            i += 1;
        }
        unset
    }
}

} // verus!
