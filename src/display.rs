use vstd::prelude::*;

verus! {

/// Number of pixel columns.
pub const WIDTH: usize = 64;

/// Number of pixel rows.
pub const HEIGHT: usize = 32;

/// The all-off grid: `HEIGHT` rows of `WIDTH` pixels each.
pub open spec fn blank() -> Seq<Seq<bool>> {
    Seq::new(HEIGHT as nat, |y: int| Seq::new(WIDTH as nat, |x: int| false))
}

/// A grid of `HEIGHT` rows, each `WIDTH` pixels long.
pub open spec fn is_grid(g: Seq<Seq<bool>>) -> bool {
    &&& g.len() == HEIGHT
    &&& forall|y: int| 0 <= y < HEIGHT ==> #[trigger] g[y].len() == WIDTH
}

/// `g` with the pixel at column `x`, row `y` set to `on`.
pub open spec fn with_pixel(g: Seq<Seq<bool>>, x: int, y: int, on: bool) -> Seq<Seq<bool>> {
    g.update(y, g[y].update(x, on))
}

/// Bit `j` of sprite row `b`, counting from the most significant bit (the
/// leftmost pixel).
pub open spec fn bit_of(b: u8, j: int) -> bool {
    (b >> ((7 - j) as u8)) & 1u8 == 1u8
}

/// Whether the sprite whose rows are `rows`, drawn with its top-left corner at
/// column `sx`, row `sy`, has a set bit over column `x`, row `y`.
pub open spec fn sprite_covers(rows: Seq<u8>, sx: int, sy: int, x: int, y: int) -> bool {
    &&& sx <= x < sx + 8
    &&& sy <= y < sy + rows.len()
    &&& bit_of(rows[y - sy], x - sx)
}

/// `g` after XOR-drawing the sprite `rows` at (`sx`, `sy`); sprite bits that
/// fall off the grid are dropped.
pub open spec fn drawn(g: Seq<Seq<bool>>, rows: Seq<u8>, sx: int, sy: int) -> Seq<Seq<bool>> {
    Seq::new(
        HEIGHT as nat,
        |y: int| Seq::new(WIDTH as nat, |x: int| g[y][x] != sprite_covers(rows, sx, sy, x, y)),
    )
}

/// Whether drawing the sprite `rows` at (`sx`, `sy`) onto `g` turns some lit
/// pixel off.
pub open spec fn collides(g: Seq<Seq<bool>>, rows: Seq<u8>, sx: int, sy: int) -> bool {
    exists|x: int, y: int|
        0 <= x < WIDTH && 0 <= y < HEIGHT && #[trigger] sprite_covers(rows, sx, sy, x, y)
            && g[y][x]
}

/// The sprite cells handled once rows before `i` and the first `j` bits of
/// row `i` are done.
spec fn visited(sx: int, sy: int, i: int, j: int, x: int, y: int) -> bool {
    y < sy + i || (y == sy + i && x < sx + j)
}

spec fn drawn_upto(
    g: Seq<Seq<bool>>,
    rows: Seq<u8>,
    sx: int,
    sy: int,
    i: int,
    j: int,
) -> Seq<Seq<bool>> {
    Seq::new(
        HEIGHT as nat,
        |y: int|
            Seq::new(
                WIDTH as nat,
                |x: int| g[y][x] != (sprite_covers(rows, sx, sy, x, y) && visited(sx, sy, i, j, x, y)),
            ),
    )
}

spec fn collides_upto(g: Seq<Seq<bool>>, rows: Seq<u8>, sx: int, sy: int, i: int, j: int) -> bool {
    exists|x: int, y: int|
        0 <= x < WIDTH && 0 <= y < HEIGHT && #[trigger] sprite_covers(rows, sx, sy, x, y)
            && visited(sx, sy, i, j, x, y) && g[y][x]
}

/// Visiting one more sprite cell adds exactly that cell to the collision
/// test.
proof fn lemma_collides_step(
    g: Seq<Seq<bool>>,
    rows: Seq<u8>,
    sx: int,
    sy: int,
    i: int,
    j: int,
)
    requires
        0 <= j < 8,
        0 <= i,
        0 <= sx,
        0 <= sy,
    ensures
        collides_upto(g, rows, sx, sy, i, j + 1) == (collides_upto(g, rows, sx, sy, i, j) || (
        sx + j < WIDTH && sy + i < HEIGHT && sprite_covers(rows, sx, sy, sx + j, sy + i)
            && g[sy + i][sx + j])),
{
    if collides_upto(g, rows, sx, sy, i, j + 1) {
        let (x, y) = choose|x: int, y: int|
            0 <= x < WIDTH && 0 <= y < HEIGHT && #[trigger] sprite_covers(rows, sx, sy, x, y)
                && visited(sx, sy, i, j + 1, x, y) && g[y][x];
        if !(x == sx + j && y == sy + i) {
            assert(visited(sx, sy, i, j, x, y));
        }
    }
    if collides_upto(g, rows, sx, sy, i, j) {
        let (x, y) = choose|x: int, y: int|
            0 <= x < WIDTH && 0 <= y < HEIGHT && #[trigger] sprite_covers(rows, sx, sy, x, y)
                && visited(sx, sy, i, j, x, y) && g[y][x];
        assert(visited(sx, sy, i, j + 1, x, y));
    }
    if sx + j < WIDTH && sy + i < HEIGHT && sprite_covers(rows, sx, sy, sx + j, sy + i)
        && g[sy + i][sx + j] {
        assert(visited(sx, sy, i, j + 1, sx + j, sy + i));
    }
}

/// Moving from past the last bit of row `i` to the start of row `i + 1`
/// visits no new sprite cell.
proof fn lemma_next_row(g: Seq<Seq<bool>>, rows: Seq<u8>, sx: int, sy: int, i: int)
    ensures
        drawn_upto(g, rows, sx, sy, i, 8) == drawn_upto(g, rows, sx, sy, i + 1, 0),
        collides_upto(g, rows, sx, sy, i, 8) == collides_upto(g, rows, sx, sy, i + 1, 0),
{
    assert(drawn_upto(g, rows, sx, sy, i, 8) =~~= drawn_upto(g, rows, sx, sy, i + 1, 0));
    if collides_upto(g, rows, sx, sy, i + 1, 0) {
        let (x, y) = choose|x: int, y: int|
            0 <= x < WIDTH && 0 <= y < HEIGHT && #[trigger] sprite_covers(rows, sx, sy, x, y)
                && visited(sx, sy, i + 1, 0, x, y) && g[y][x];
        assert(visited(sx, sy, i, 8, x, y));
    }
    if collides_upto(g, rows, sx, sy, i, 8) {
        let (x, y) = choose|x: int, y: int|
            0 <= x < WIDTH && 0 <= y < HEIGHT && #[trigger] sprite_covers(rows, sx, sy, x, y)
                && visited(sx, sy, i, 8, x, y) && g[y][x];
        assert(visited(sx, sy, i + 1, 0, x, y));
    }
}

/// Once every row is visited, the partial drawing is the whole drawing.
proof fn lemma_all_rows(g: Seq<Seq<bool>>, rows: Seq<u8>, sx: int, sy: int)
    ensures
        drawn_upto(g, rows, sx, sy, rows.len() as int, 0) == drawn(g, rows, sx, sy),
        collides_upto(g, rows, sx, sy, rows.len() as int, 0) == collides(g, rows, sx, sy),
{
    let n = rows.len() as int;
    assert(drawn_upto(g, rows, sx, sy, n, 0) =~~= drawn(g, rows, sx, sy));
    if collides(g, rows, sx, sy) {
        let (x, y) = choose|x: int, y: int|
            0 <= x < WIDTH && 0 <= y < HEIGHT && #[trigger] sprite_covers(rows, sx, sy, x, y)
                && g[y][x];
        assert(visited(sx, sy, n, 0, x, y));
    }
}

/// A monochrome frame buffer of `WIDTH` x `HEIGHT` pixels, addressed as
/// (column, row); it is viewed as a sequence of rows.
pub struct Display {
    pixels: Vec<bool>,
}

impl View for Display {
    type V = Seq<Seq<bool>>;

    closed spec fn view(&self) -> Seq<Seq<bool>> {
        Seq::new(
            HEIGHT as nat,
            |y: int| Seq::new(WIDTH as nat, |x: int| self.pixels@[y * (WIDTH as int) + x]),
        )
    }
}

impl Display {
    /// The pixel buffer holds exactly one cell per pixel.
    pub closed spec fn wf(&self) -> bool {
        self.pixels@.len() == WIDTH * HEIGHT
    }

    /// Every well-formed display is viewed as a full grid.
    pub proof fn lemma_grid(&self)
        ensures
            is_grid(self@),
    {
    }

    /// A display with every pixel off.
    pub fn new() -> (r: Display)
        ensures
            r.wf(),
            r@ == blank(),
    {
        let mut pixels: Vec<bool> = Vec::new();
        let mut k: usize = 0;
        while k < WIDTH * HEIGHT
            invariant
                k <= WIDTH * HEIGHT,
                pixels@.len() == k,
                forall|i: int| 0 <= i < k ==> pixels@[i] == false,
            decreases WIDTH * HEIGHT - k,
        {
            pixels.push(false);
            k = k + 1;
        }
        let r = Display { pixels };
        assert(r@ =~~= blank());
        r
    }

    /// Turns every pixel off.
    pub fn clear(&mut self)
        requires
            old(self).wf(),
        ensures
            final(self).wf(),
            final(self)@ == blank(),
    {
        let mut k: usize = 0;
        while k < WIDTH * HEIGHT
            invariant
                k <= WIDTH * HEIGHT,
                self.pixels@.len() == WIDTH * HEIGHT,
                forall|i: int| 0 <= i < k ==> self.pixels@[i] == false,
            decreases WIDTH * HEIGHT - k,
        {
            self.pixels.set(k, false);
            k = k + 1;
        }
        assert(self@ =~~= blank());
    }

    /// Whether the pixel at column `x`, row `y` is on; a position off the grid
    /// reads as off.
    pub fn pixel(&self, x: usize, y: usize) -> (r: bool)
        requires
            self.wf(),
        ensures
            r == (x < WIDTH && y < HEIGHT && self@[y as int][x as int]),
    {
        if x < WIDTH && y < HEIGHT {
            self.pixels[y * WIDTH + x]
        } else {
            false
        }
    }

    /// Sets the pixel at column `x`, row `y` to `on`.
    pub fn set_pixel(&mut self, x: usize, y: usize, on: bool)
        requires
            old(self).wf(),
            x < WIDTH,
            y < HEIGHT,
        ensures
            final(self).wf(),
            final(self)@ == with_pixel(old(self)@, x as int, y as int, on),
    {
        self.pixels.set(y * WIDTH + x, on);
        assert(self@ =~~= with_pixel(old(self)@, x as int, y as int, on));
    }

    /// Flips the pixel at column `x`, row `y`; returns whether it was on
    /// before the flip.
    pub fn toggle(&mut self, x: usize, y: usize) -> (was_on: bool)
        requires
            old(self).wf(),
            x < WIDTH,
            y < HEIGHT,
        ensures
            final(self).wf(),
            was_on == old(self)@[y as int][x as int],
            final(self)@ == with_pixel(old(self)@, x as int, y as int, !was_on),
    {
        let was_on = self.pixels[y * WIDTH + x];
        self.set_pixel(x, y, !was_on);
        was_on
    }
    /// XOR-draws the sprite made of the `n` bytes of `memory` from `start` on
    /// with its top-left corner at column `sx`, row `sy`: each set bit flips
    /// the pixel under it, bits off the grid are dropped. Returns whether a
    /// lit pixel was turned off.
    pub fn draw_sprite(&mut self, memory: &Vec<u8>, start: usize, n: usize, sx: usize, sy: usize) -> (collision: bool)
        requires
            old(self).wf(),
            start + n <= memory@.len(),
            sx < WIDTH,
            sy < HEIGHT,
        ensures
            final(self).wf(),
            final(self)@ == drawn(
                old(self)@,
                memory@.subrange(start as int, start + n),
                sx as int,
                sy as int,
            ),
            collision == collides(
                old(self)@,
                memory@.subrange(start as int, start + n),
                sx as int,
                sy as int,
            ),
    {
        let ghost g = self@;
        let ghost rows = memory@.subrange(start as int, start + n);
        let len = memory.len();
        let mut collision = false;
        let mut i: usize = 0;
        proof {
            assert(self@ =~~= drawn_upto(g, rows, sx as int, sy as int, 0, 0));
        }
        while i < n
            invariant
                len == memory@.len(),
                start + n <= memory@.len(),
                rows == memory@.subrange(start as int, start + n),
                sx < WIDTH,
                sy < HEIGHT,
                i <= n,
                self.wf(),
                self@ == drawn_upto(g, rows, sx as int, sy as int, i as int, 0),
                collision == collides_upto(g, rows, sx as int, sy as int, i as int, 0),
            decreases n - i,
        {
            let row = memory[start + i];
            let row_on_grid = i < HEIGHT - sy;
            let mut j: u8 = 0;
            while j < 8
                invariant
                    start + n <= memory@.len(),
                    rows == memory@.subrange(start as int, start + n),
                    row == rows[i as int],
                    sx < WIDTH,
                    sy < HEIGHT,
                    i < n,
                    row_on_grid == (sy + i < HEIGHT),
                    j <= 8,
                    self.wf(),
                    self@ == drawn_upto(g, rows, sx as int, sy as int, i as int, j as int),
                    collision == collides_upto(g, rows, sx as int, sy as int, i as int, j as int),
                decreases 8 - j,
            {
                let x = sx + j as usize;
                let bit = (row >> (7 - j)) & 1u8 == 1u8;
                proof {
                    lemma_collides_step(g, rows, sx as int, sy as int, i as int, j as int);
                    self.lemma_grid();
                }
                if x < WIDTH && row_on_grid && bit {
                    let was_on = self.toggle(x, sy + i);
                    if was_on {
                        collision = true;
                    }
                }
                proof {
                    assert(self@ =~~= drawn_upto(
                        g,
                        rows,
                        sx as int,
                        sy as int,
                        i as int,
                        j + 1,
                    ));
                }
                j = j + 1;
            }
            proof {
                lemma_next_row(g, rows, sx as int, sy as int, i as int);
            }
            i = i + 1;
        }
        proof {
            lemma_all_rows(g, rows, sx as int, sy as int);
        }
        collision
    }
}

} // verus!
