//! What holds of sprite drawing on every grid.
use crate::display::{
    draw_row, draw_rows, draw_sprite, erases, grid_wf, lemma_draw_rows_grid, overlaps, row_hit,
    sprite_collides,
};
use vstd::prelude::*;

verus! {

/// Drawing the same sprite row twice on the same grid row restores the grid.
pub proof fn lemma_draw_row_twice(g: Seq<Seq<bool>>, x: int, r: int, byte: u8)
    requires
        grid_wf(g),
    ensures
        draw_row(draw_row(g, x, r, byte), x, r, byte) == g,
{
    assert(draw_row(draw_row(g, x, r, byte), x, r, byte) =~~= g);
}

/// Two sprite rows drawn from the same column can be drawn in either order.
pub proof fn lemma_draw_row_commutes(
    g: Seq<Seq<bool>>,
    x: int,
    r1: int,
    b1: u8,
    r2: int,
    b2: u8,
)
    requires
        grid_wf(g),
    ensures
        draw_row(draw_row(g, x, r1, b1), x, r2, b2) == draw_row(draw_row(g, x, r2, b2), x, r1, b1),
{
    assert(draw_row(draw_row(g, x, r1, b1), x, r2, b2) =~~= draw_row(
        draw_row(g, x, r2, b2),
        x,
        r1,
        b1,
    ));
}

/// A sprite row drawn before the first `k` rows of a sprite gives the same
/// grid as the row drawn after them.
pub proof fn lemma_draw_rows_commutes(
    g: Seq<Seq<bool>>,
    x: int,
    y: int,
    sprite: Seq<u8>,
    k: int,
    r: int,
    byte: u8,
)
    requires
        grid_wf(g),
    ensures
        draw_rows(draw_row(g, x, r, byte), x, y, sprite, k) == draw_row(
            draw_rows(g, x, y, sprite, k),
            x,
            r,
            byte,
        ),
    decreases k,
{
    if k > 0 {
        lemma_draw_rows_commutes(g, x, y, sprite, k - 1, r, byte);
        lemma_draw_rows_grid(g, x, y, sprite, k - 1);
        lemma_draw_row_commutes(
            draw_rows(g, x, y, sprite, k - 1),
            x,
            r,
            byte,
            (y + k - 1) % 32,
            sprite[k - 1],
        );
    }
}

/// Drawing the first `k` rows of a sprite twice restores the grid.
pub proof fn lemma_draw_rows_twice(g: Seq<Seq<bool>>, x: int, y: int, sprite: Seq<u8>, k: int)
    requires
        grid_wf(g),
    ensures
        draw_rows(draw_rows(g, x, y, sprite, k), x, y, sprite, k) == g,
    decreases k,
{
    if k > 0 {
        let before = draw_rows(g, x, y, sprite, k - 1);
        let r = (y + k - 1) % 32;
        let byte = sprite[k - 1];
        lemma_draw_rows_grid(g, x, y, sprite, k - 1);
        lemma_draw_rows_commutes(before, x, y, sprite, k - 1, r, byte);
        lemma_draw_rows_twice(g, x, y, sprite, k - 1);
        lemma_draw_row_twice(g, x, r, byte);
    }
}

/// The grid after `n` identical draws of a sprite.
pub open spec fn draw_times(g: Seq<Seq<bool>>, x: int, y: int, sprite: Seq<u8>, n: nat) -> Seq<
    Seq<bool>,
>
    decreases n,
{
    if n == 0 {
        g
    } else {
        draw_sprite(draw_times(g, x, y, sprite, (n - 1) as nat), x, y, sprite)
    }
}

/// Drawing is an involution: a sprite drawn twice at the same place leaves
/// the grid as it was.
pub proof fn lemma_draw_twice(g: Seq<Seq<bool>>, x: int, y: int, sprite: Seq<u8>)
    requires
        grid_wf(g),
    ensures
        draw_sprite(draw_sprite(g, x, y, sprite), x, y, sprite) == g,
{
    lemma_draw_rows_twice(g, x, y, sprite, sprite.len() as int);
}

/// After any number of identical draws the grid is the one before the first
/// of them if the number is even, and the grid after one draw if it is odd: a
/// pixel toggled an even number of times is back in the state it started in.
pub proof fn lemma_draw_times_parity(g: Seq<Seq<bool>>, x: int, y: int, sprite: Seq<u8>, n: nat)
    requires
        grid_wf(g),
    ensures
        n % 2 == 0 ==> draw_times(g, x, y, sprite, n) == g,
        n % 2 == 1 ==> draw_times(g, x, y, sprite, n) == draw_sprite(g, x, y, sprite),
    decreases n,
{
    if n >= 2 {
        lemma_draw_times_parity(g, x, y, sprite, (n - 2) as nat);
        let inner = draw_times(g, x, y, sprite, (n - 2) as nat);
        lemma_draw_rows_grid(g, x, y, sprite, sprite.len() as int);
        assert(draw_times(g, x, y, sprite, (n - 1) as nat) == draw_sprite(inner, x, y, sprite));
        lemma_draw_twice(inner, x, y, sprite);
    } else if n == 1 {
        assert(draw_times(g, x, y, sprite, 0) == g);
    }
}

/// Whether a set bit of the sprite lands on the pixel in row `r`, column `c`,
/// for a sprite of at most 32 rows: the sprite row that lands on `r` is row
/// `(r - y) mod 32`.
pub open spec fn sprite_hit(sprite: Seq<u8>, x: int, y: int, r: int, c: int) -> bool {
    (r - y) % 32 < sprite.len() && row_hit(sprite[(r - y) % 32], x, c, 8)
}

/// The first `k` rows of a sprite, for `k` at most 32, toggle exactly the
/// pixels that a set bit of one of these rows lands on, each once.
pub proof fn lemma_draw_rows_pixel(
    g: Seq<Seq<bool>>,
    x: int,
    y: int,
    sprite: Seq<u8>,
    k: int,
    r: int,
    c: int,
)
    requires
        grid_wf(g),
        0 <= k <= 32,
        0 <= r < 32,
        0 <= c < 64,
    ensures
        draw_rows(g, x, y, sprite, k)[r][c] == (g[r][c] != ((r - y) % 32 < k && row_hit(
            sprite[(r - y) % 32],
            x,
            c,
            8,
        ))),
    decreases k,
{
    if k > 0 {
        lemma_draw_rows_pixel(g, x, y, sprite, k - 1, r, c);
        lemma_draw_rows_grid(g, x, y, sprite, k - 1);
    }
}

/// A sprite of at most 32 rows toggles exactly the pixels that its set bits
/// land on and leaves every other pixel as it was. Its origin wraps: row `i`
/// lands on grid row `(y + i) mod 32`, bit `j` on column `(x + j) mod 64`.
pub proof fn lemma_draw_sprite_pixel(
    g: Seq<Seq<bool>>,
    x: int,
    y: int,
    sprite: Seq<u8>,
    r: int,
    c: int,
)
    requires
        grid_wf(g),
        sprite.len() <= 32,
        0 <= r < 32,
        0 <= c < 64,
    ensures
        draw_sprite(g, x, y, sprite)[r][c] == (g[r][c] != sprite_hit(sprite, x, y, r, c)),
{
    lemma_draw_rows_pixel(g, x, y, sprite, sprite.len() as int, r, c);
}

/// For a sprite of at most 32 rows, a toggle turns a lit pixel off exactly
/// when a set bit lands on a pixel that was lit before the draw: no earlier
/// row of the sprite has touched it.
pub proof fn lemma_erases_iff_overlaps(
    g: Seq<Seq<bool>>,
    x: int,
    y: int,
    sprite: Seq<u8>,
    i: int,
    j: int,
)
    requires
        grid_wf(g),
        0 <= i < 32,
        0 <= j < 8,
    ensures
        erases(g, x, y, sprite, i, j) == overlaps(g, x, y, sprite, i, j),
{
    lemma_draw_rows_pixel(g, x, y, sprite, i, (y + i) % 32, (x + j) % 64);
}

/// A sprite of at most 32 rows collides exactly when one of its set bits
/// lands on a pixel that was lit before the draw.
pub proof fn lemma_collides_iff_overlaps(g: Seq<Seq<bool>>, x: int, y: int, sprite: Seq<u8>)
    requires
        grid_wf(g),
        sprite.len() <= 32,
    ensures
        sprite_collides(g, x, y, sprite) <==> exists|i: int, j: int|
            0 <= i < sprite.len() && 0 <= j < 8 && #[trigger] overlaps(g, x, y, sprite, i, j),
{
    if sprite_collides(g, x, y, sprite) {
        let (i, j) = choose|i: int, j: int|
            0 <= i < sprite.len() && 0 <= j < 8 && #[trigger] erases(g, x, y, sprite, i, j);
        lemma_erases_iff_overlaps(g, x, y, sprite, i, j);
    }
    if exists|i: int, j: int|
        0 <= i < sprite.len() && 0 <= j < 8 && #[trigger] overlaps(g, x, y, sprite, i, j) {
        let (i, j) = choose|i: int, j: int|
            0 <= i < sprite.len() && 0 <= j < 8 && #[trigger] overlaps(g, x, y, sprite, i, j);
        lemma_erases_iff_overlaps(g, x, y, sprite, i, j);
    }
}

/// A sprite drawn on the blank grid never collides.
pub proof fn lemma_blank_never_collides(x: int, y: int, sprite: Seq<u8>)
    requires
        sprite.len() <= 32,
    ensures
        !sprite_collides(crate::display::blank(), x, y, sprite),
{
    let g = crate::display::blank();
    assert forall|i: int, j: int| 0 <= i < sprite.len() && 0 <= j < 8 implies !#[trigger] erases(
        g,
        x,
        y,
        sprite,
        i,
        j,
    ) by {
        lemma_erases_iff_overlaps(g, x, y, sprite, i, j);
    }
}

} // verus!
