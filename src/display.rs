use vstd::prelude::*;
use vstd::arithmetic::div_mod::{lemma_fundamental_div_mod, lemma_fundamental_div_mod_converse};

verus! {

/// Screen width in pixels.
pub const WIDTH: usize = 64;

/// Screen height in pixels.
pub const HEIGHT: usize = 32;

/// Number of pixels on the screen; pixel `(px, py)` is stored at `py * WIDTH + px`.
pub const NUM_PIXELS: usize = 2048;

/// Tallest sprite a draw can take.
pub const MAX_SPRITE_ROWS: usize = 15;

/// Screen column of the pixel stored at index `p`.
pub open spec fn col_of(p: int) -> int {
    p % 64
}

/// Screen row of the pixel stored at index `p`.
pub open spec fn row_of(p: int) -> int {
    p / 64
}

/// The sprite row that lands on screen row `py` when the sprite's top edge is at `y`.
pub open spec fn sprite_row(y: int, py: int) -> int {
    (py - y) % 32
}

/// The sprite column that lands on screen column `px` when the sprite's left edge is at `x`.
pub open spec fn sprite_col(x: int, px: int) -> int {
    (px - x) % 64
}

/// Bit `k` of a sprite byte, most significant bit first.
pub open spec fn sprite_bit(b: u8, k: int) -> bool {
    (b >> ((7 - k) as u8)) & 1u8 == 1u8
}

/// Whether drawing `sprite` at `(x, y)` (with wrapping) flips the pixel stored at index `p`.
pub open spec fn covers(sprite: Seq<u8>, x: int, y: int, p: int) -> bool {
    let r = sprite_row(y, row_of(p));
    let c = sprite_col(x, col_of(p));
    r < sprite.len() && c < 8 && sprite_bit(sprite[r], c)
}

/// The screen after XOR-drawing `sprite` at `(x, y)`.
pub open spec fn drawn(pixels: Seq<bool>, sprite: Seq<u8>, x: int, y: int) -> Seq<bool> {
    Seq::new(pixels.len(), |p: int| pixels[p] != covers(sprite, x, y, p))
}

/// Whether drawing `sprite` at `(x, y)` lands a set bit on a pixel that is already on.
pub open spec fn collides(pixels: Seq<bool>, sprite: Seq<u8>, x: int, y: int) -> bool {
    exists|p: int| 0 <= p < pixels.len() && #[trigger] covers(sprite, x, y, p) && pixels[p]
}

/// A screen with every pixel off.
pub open spec fn blank() -> Seq<bool> {
    Seq::new(NUM_PIXELS as nat, |p: int| false)
}

/// Whether the pixel at `p` has been visited once rows before `r`, and bits before `b`
/// of row `r`, have been drawn.
spec fn visited(x: int, y: int, p: int, r: int, b: int) -> bool {
    let sr = sprite_row(y, row_of(p));
    sr < r || (sr == r && sprite_col(x, col_of(p)) < b)
}

/// The pixel that bit `b` of sprite row `r` lands on is the one index whose sprite
/// coordinates are `(r, b)`.
proof fn lemma_target(x: int, y: int, r: int, b: int, t: int)
    requires
        0 <= x < 256,
        0 <= y < 256,
        0 <= r < 32,
        0 <= b < 8,
        t == ((y + r) % 32) * 64 + (x + b) % 64,
    ensures
        0 <= t < 2048,
        sprite_row(y, row_of(t)) == r,
        sprite_col(x, col_of(t)) == b,
        forall|p: int|
            0 <= p < 2048 && sprite_row(y, row_of(p)) == r && sprite_col(x, col_of(p)) == b
                ==> p == t,
{
    let py = (y + r) % 32;
    let px = (x + b) % 64;
    lemma_fundamental_div_mod(y + r, 32);
    lemma_fundamental_div_mod(x + b, 64);
    lemma_fundamental_div_mod_converse(t, 64, py, px);
    let qy = (y + r) / 32;
    let qx = (x + b) / 64;
    lemma_fundamental_div_mod_converse(py - y, 32, -qy, r);
    lemma_fundamental_div_mod_converse(px - x, 64, -qx, b);
    assert forall|p: int|
        0 <= p < 2048 && sprite_row(y, row_of(p)) == r && sprite_col(x, col_of(p)) == b
            implies p == t by {
        let ry = row_of(p);
        let cx = col_of(p);
        lemma_fundamental_div_mod(p, 64);
        lemma_fundamental_div_mod(ry - y, 32);
        lemma_fundamental_div_mod(cx - x, 64);
        let ky = (ry - y) / 32;
        let kx = (cx - x) / 64;
        assert(0 <= ry < 32) by {
            assert(p == 64 * ry + cx);
        }
        lemma_fundamental_div_mod_converse(y + r, 32, -ky, ry);
        lemma_fundamental_div_mod_converse(x + b, 64, -kx, cx);
    }
}

/// A monochrome screen of `WIDTH` by `HEIGHT` pixels.
pub struct Framebuffer {
    pixels: [bool; 2048],
}

impl View for Framebuffer {
    type V = Seq<bool>;

    closed spec fn view(&self) -> Seq<bool> {
        self.pixels@
    }
}

/// A screen with every pixel off.
pub fn empty_grid() -> (r: Framebuffer)
    ensures
        r@ == blank(),
{
    let r = Framebuffer { pixels: [false; 2048] };
    assert(r@ =~= blank());
    r
}

impl Framebuffer {
    /// Every screen holds exactly `NUM_PIXELS` pixels.
    pub proof fn lemma_len(&self)
        ensures
            self@.len() == NUM_PIXELS,
    {
    }

    /// Turns every pixel off.
    pub fn clear(&mut self)
        ensures
            final(self)@ == blank(),
    {
        *self = empty_grid();
    }

    /// Whether the pixel at column `x`, row `y` is on.
    pub fn pixel(&self, x: usize, y: usize) -> (r: bool)
        requires
            x < WIDTH,
            y < HEIGHT,
        ensures
            r == self@[y * 64 + x],
    {
        self.pixels[y * 64 + x]
    }

    /// XOR-draws `sprite` (one byte per row, most significant bit leftmost) with its top
    /// left corner at `(x, y)`, wrapping around both screen edges. Returns whether a set
    /// bit of the sprite landed on a pixel that was on.
    pub fn draw_sprite(&mut self, x: u8, y: u8, sprite: &[u8]) -> (collision: bool)
        requires
            sprite@.len() <= MAX_SPRITE_ROWS,
        ensures
            final(self)@ == drawn(old(self)@, sprite@, x as int, y as int),
            collision == collides(old(self)@, sprite@, x as int, y as int),
    {
        let ghost start = self.pixels@;
        let ghost (xi, yi) = (x as int, y as int);
        let n = sprite.len();
        let mut collision = false;
        let mut row: usize = 0;
        while row < n
            invariant
                n == sprite@.len(),
                n <= 15,
                row <= n,
                start == old(self)@,
                xi == x as int,
                yi == y as int,
                self.pixels@.len() == 2048,
                forall|p: int|
                    0 <= p < 2048 ==> self.pixels@[p] == (start[p] != (covers(sprite@, xi, yi, p)
                        && visited(xi, yi, p, row as int, 0))),
                collision == exists|p: int|
                    0 <= p < 2048 && #[trigger] covers(sprite@, xi, yi, p) && visited(
                        xi,
                        yi,
                        p,
                        row as int,
                        0,
                    ) && start[p],
            decreases n - row,
        {
            let py = (y as usize + row) % HEIGHT;
            let byte = sprite[row];
            let mut bit: usize = 0;
            while bit < 8
                invariant
                    n == sprite@.len(),
                    n <= 15,
                    row < n,
                    bit <= 8,
                    byte == sprite@[row as int],
                    py == (y as int + row) % 32,
                    start == old(self)@,
                    xi == x as int,
                    yi == y as int,
                    self.pixels@.len() == 2048,
                    forall|p: int|
                        0 <= p < 2048 ==> self.pixels@[p] == (start[p] != (covers(
                            sprite@,
                            xi,
                            yi,
                            p,
                        ) && visited(xi, yi, p, row as int, bit as int))),
                    collision == exists|p: int|
                        0 <= p < 2048 && #[trigger] covers(sprite@, xi, yi, p) && visited(
                            xi,
                            yi,
                            p,
                            row as int,
                            bit as int,
                        ) && start[p],
                decreases 8 - bit,
            {
                let px = (x as usize + bit) % WIDTH;
                let t = py * WIDTH + px;
                proof {
                    lemma_target(xi, yi, row as int, bit as int, t as int);
                }
                let color = (byte >> (7 - bit as u8)) & 1u8 == 1u8;
                assert(color == covers(sprite@, xi, yi, t as int));
                let cur = self.pixels[t];
                assert(cur == start[t as int]);
                let ghost before = collision;
                if color && cur {
                    collision = true;
                }
                self.pixels[t] = cur != color;
                proof {
                    if collision && !before {
                        assert(covers(sprite@, xi, yi, t as int) && visited(
                            xi,
                            yi,
                            t as int,
                            row as int,
                            bit as int + 1,
                        ) && start[t as int]);
                    }
                    if before {
                        let w = choose|p: int|
                            0 <= p < 2048 && #[trigger] covers(sprite@, xi, yi, p) && visited(
                                xi,
                                yi,
                                p,
                                row as int,
                                bit as int,
                            ) && start[p];
                        assert(visited(xi, yi, w, row as int, bit as int + 1));
                    }
                }
                bit += 1;
            }
            assert forall|p: int|
                0 <= p < 2048 && covers(sprite@, xi, yi, p) implies visited(
                xi,
                yi,
                p,
                row as int,
                8,
            ) == visited(xi, yi, p, row as int + 1, 0) by {}
            row += 1;
        }
        proof {
            assert forall|p: int| 0 <= p < 2048 && covers(sprite@, xi, yi, p) implies visited(
                xi,
                yi,
                p,
                n as int,
                0,
            ) by {}
            assert(self.pixels@ =~= drawn(start, sprite@, xi, yi));
        }
        collision
    }
}

} // verus!
