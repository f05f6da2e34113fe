use vstd::prelude::*;

verus! {

/// Pixels in one row of the display.
pub const DISPLAY_WIDTH: usize = 64;

/// Rows of the display.
pub const DISPLAY_HEIGHT: usize = 32;

/// Pixels of the display, stored row by row.
pub const DISPLAY_SIZE: usize = 2048;

/// Pixels in one row of a sprite.
pub const SPRITE_WIDTH: usize = 8;

/// The most rows a sprite can have.
pub const MAX_SPRITE_HEIGHT: usize = 15;

/// A display with every pixel unlit.
pub open spec fn blank() -> Seq<bool> {
    Seq::new(DISPLAY_SIZE as nat, |k: int| false)
}

/// The value of the bit that stands for column `col` of a sprite row,
/// column 0 being the most significant bit.
pub open spec fn column_weight(col: u8) -> u8 {
    if col == 0 {
        128
    } else if col == 1 {
        64
    } else if col == 2 {
        32
    } else if col == 3 {
        16
    } else if col == 4 {
        8
    } else if col == 5 {
        4
    } else if col == 6 {
        2
    } else {
        1
    }
}

/// Whether the sprite row `bits` has its pixel in column `col` set.
pub open spec fn row_bit(bits: u8, col: u8) -> bool {
    (bits / column_weight(col)) % 2 == 1
}

/// Column of a sprite anchored at horizontal position `x` that lands on
/// display column `px`; it is a column of the sprite where it is below
/// `SPRITE_WIDTH`.
pub open spec fn sprite_col(x: int, px: int) -> int {
    (px - x) % (DISPLAY_WIDTH as int)
}

/// Row of a sprite anchored at vertical position `y` that lands on display
/// row `py`; it is a row of the sprite where it is below the sprite's height.
pub open spec fn sprite_row(y: int, py: int) -> int {
    (py - y) % (DISPLAY_HEIGHT as int)
}

/// Whether a sprite drawn with its top left corner at (`x`, `y`) has a set
/// pixel on the display cell with index `k`. The sprite wraps around both
/// edges of the display.
pub open spec fn sprite_covers(sprite: Seq<u8>, x: u8, y: u8, k: int) -> bool {
    let col = sprite_col(x as int, k % (DISPLAY_WIDTH as int));
    let row = sprite_row(y as int, k / (DISPLAY_WIDTH as int));
    col < SPRITE_WIDTH && row < sprite.len() && row_bit(sprite[row], col as u8)
}

/// The display after the sprite has been drawn: each cell that the sprite
/// covers is toggled, every other cell is as before.
pub open spec fn draw_sprite(pixels: Seq<bool>, sprite: Seq<u8>, x: u8, y: u8) -> Seq<bool> {
    Seq::new(DISPLAY_SIZE as nat, |k: int| pixels[k] != sprite_covers(sprite, x, y, k))
}

/// Whether drawing the sprite turns off a cell that was lit.
pub open spec fn sprite_collides(pixels: Seq<bool>, sprite: Seq<u8>, x: u8, y: u8) -> bool {
    exists|k: int| 0 <= k < DISPLAY_SIZE && pixels[k] && #[trigger] sprite_covers(sprite, x, y, k)
}

/// The part of `sprite_covers` that a draw has reached once it has gone
/// through `rows` whole rows and `cols` columns of the next row.
spec fn covered_so_far(sprite: Seq<u8>, x: u8, y: u8, rows: int, cols: int, k: int) -> bool {
    let col = sprite_col(x as int, k % (DISPLAY_WIDTH as int));
    let row = sprite_row(y as int, k / (DISPLAY_WIDTH as int));
    sprite_covers(sprite, x, y, k) && (row < rows || (row == rows && col < cols))
}

/// The part of `sprite_collides` that a draw has reached at the same point.
spec fn collides_so_far(
    pixels: Seq<bool>,
    sprite: Seq<u8>,
    x: u8,
    y: u8,
    rows: int,
    cols: int,
) -> bool {
    exists|k: int|
        0 <= k < DISPLAY_SIZE && pixels[k] && #[trigger] covered_so_far(sprite, x, y, rows, cols, k)
}

/// Where going one step further in a draw changes what is covered at no cell
/// but `cell`, and there only by adding it, the collision reached so far
/// grows by exactly whether `cell` was lit and is covered now.
proof fn lemma_collides_step(
    pixels: Seq<bool>,
    sprite: Seq<u8>,
    x: u8,
    y: u8,
    rows: int,
    cols: int,
    next_rows: int,
    next_cols: int,
    cell: int,
    hit: bool,
)
    requires
        0 <= cell < DISPLAY_SIZE,
        forall|k: int|
            0 <= k < DISPLAY_SIZE && k != cell ==> covered_so_far(sprite, x, y, rows, cols, k)
                == #[trigger] covered_so_far(sprite, x, y, next_rows, next_cols, k),
        covered_so_far(sprite, x, y, rows, cols, cell) ==> covered_so_far(
            sprite,
            x,
            y,
            next_rows,
            next_cols,
            cell,
        ),
        hit == (pixels[cell] && covered_so_far(sprite, x, y, next_rows, next_cols, cell)),
    ensures
        collides_so_far(pixels, sprite, x, y, next_rows, next_cols) == (collides_so_far(
            pixels,
            sprite,
            x,
            y,
            rows,
            cols,
        ) || hit),
{
    if collides_so_far(pixels, sprite, x, y, rows, cols) {
        let k = choose|k: int|
            0 <= k < DISPLAY_SIZE && pixels[k] && #[trigger] covered_so_far(
                sprite,
                x,
                y,
                rows,
                cols,
                k,
            );
        assert(covered_so_far(sprite, x, y, next_rows, next_cols, k));
    }
    if collides_so_far(pixels, sprite, x, y, next_rows, next_cols) {
        let k = choose|k: int|
            0 <= k < DISPLAY_SIZE && pixels[k] && #[trigger] covered_so_far(
                sprite,
                x,
                y,
                next_rows,
                next_cols,
                k,
            );
        if k != cell {
            assert(covered_so_far(sprite, x, y, rows, cols, k));
        }
    }
}

proof fn lemma_row_bit(bits: u8, col: u8)
    by (bit_vector)
    requires
        col < 8,
    ensures
        (bits & (0x80u8 >> col) != 0) == row_bit(bits, col),
{
}

/// The 64 by 32 grid of pixels.
pub struct Display {
    pixels: [bool; 2048],
}

impl View for Display {
    type V = Seq<bool>;

    closed spec fn view(&self) -> Seq<bool> {
        self.pixels@
    }
}

impl Display {
    /// A display with every pixel unlit.
    pub fn new() -> (display: Display)
        ensures
            display@ == blank(),
    {
        let display = Display { pixels: [false; 2048] };
        assert(display@ =~= blank());
        display
    }

    /// Every view of a display has exactly `DISPLAY_SIZE` cells.
    pub proof fn lemma_len(&self)
        ensures
            self@.len() == DISPLAY_SIZE,
    {
    }

    /// Turns every pixel off.
    pub fn clear(&mut self)
        ensures
            final(self)@ == blank(),
    {
        self.pixels = [false; 2048];
        assert(self@ =~= blank());
    }

    /// The pixels, row by row.
    pub fn pixels(&self) -> (pixels: &[bool])
        ensures
            pixels@ == self@,
    {
        self.pixels.as_slice()
    }

    /// Whether the cell in column `x` of row `y` is lit.
    pub fn pixel(&self, x: usize, y: usize) -> (lit: bool)
        requires
            x < DISPLAY_WIDTH,
            y < DISPLAY_HEIGHT,
        ensures
            lit == self@[y * DISPLAY_WIDTH + x],
    {
        self.pixels[y * DISPLAY_WIDTH + x]
    }

    /// Draws `sprite` with its top left corner at (`x`, `y`), toggling each
    /// cell under a set pixel of the sprite and wrapping around the edges.
    /// Returns whether a lit cell was turned off.
    pub fn draw(&mut self, x: u8, y: u8, sprite: &[u8]) -> (collision: bool)
        requires
            sprite@.len() <= MAX_SPRITE_HEIGHT,
        ensures
            final(self)@ == draw_sprite(old(self)@, sprite@, x, y),
            collision == sprite_collides(old(self)@, sprite@, x, y),
    {
        let mut flipped = false;
        let mut row: usize = 0;
        while row < sprite.len()
            invariant
                row <= sprite@.len() <= MAX_SPRITE_HEIGHT,
                forall|k: int|
                    0 <= k < DISPLAY_SIZE ==> self.pixels@[k] == (old(self).pixels@[k]
                        != #[trigger] covered_so_far(sprite@, x, y, row as int, 0, k)),
                flipped == collides_so_far(old(self).pixels@, sprite@, x, y, row as int, 0),
            decreases sprite@.len() - row,
        {
            let bits = sprite[row];
            let mut col: u8 = 0;
            while col < 8
                invariant
                    col <= 8,
                    row < sprite@.len() <= MAX_SPRITE_HEIGHT,
                    bits == sprite@[row as int],
                    forall|k: int|
                        0 <= k < DISPLAY_SIZE ==> self.pixels@[k] == (old(self).pixels@[k]
                            != #[trigger] covered_so_far(sprite@, x, y, row as int, col as int, k)),
                    flipped == collides_so_far(
                        old(self).pixels@,
                        sprite@,
                        x,
                        y,
                        row as int,
                        col as int,
                    ),
                decreases 8 - col,
            {
                proof {
                    lemma_row_bit(bits, col);
                }
                let px = (x as usize + col as usize) % DISPLAY_WIDTH;
                let py = (y as usize + row) % DISPLAY_HEIGHT;
                let cell = px + DISPLAY_WIDTH * py;
                assert(cell % 64 == px && cell / 64 == py);
                assert(sprite_col(x as int, px as int) == col);
                assert(sprite_row(y as int, py as int) == row);
                assert forall|k: int| 0 <= k < DISPLAY_SIZE && k != cell implies covered_so_far(
                    sprite@,
                    x,
                    y,
                    row as int,
                    col as int,
                    k,
                ) == #[trigger] covered_so_far(sprite@, x, y, row as int, col + 1, k) by {
                    let kc = sprite_col(x as int, k % 64);
                    let kr = sprite_row(y as int, k / 64);
                    if kc == col && kr == row {
                        assert(k % 64 == px);
                        assert(k / 64 == py);
                    }
                }
                assert(!covered_so_far(sprite@, x, y, row as int, col as int, cell as int));
                assert(covered_so_far(sprite@, x, y, row as int, col + 1, cell as int) == row_bit(
                    bits,
                    col,
                ));
                proof {
                    lemma_collides_step(
                        old(self).pixels@,
                        sprite@,
                        x,
                        y,
                        row as int,
                        col as int,
                        row as int,
                        col + 1,
                        cell as int,
                        old(self).pixels@[cell as int] && row_bit(bits, col),
                    );
                }
                if bits & (0x80u8 >> col) != 0 {
                    if self.pixels[cell] {
                        flipped = true;
                    }
                    self.pixels[cell] = !self.pixels[cell];
                }
                col = col + 1;
            }
            assert forall|k: int| 0 <= k < DISPLAY_SIZE implies covered_so_far(
                sprite@,
                x,
                y,
                row as int,
                8,
                k,
            ) == #[trigger] covered_so_far(sprite@, x, y, row + 1, 0, k) by {}
            proof {
                lemma_collides_step(
                    old(self).pixels@,
                    sprite@,
                    x,
                    y,
                    row as int,
                    8,
                    row + 1,
                    0,
                    0,
                    old(self).pixels@[0] && covered_so_far(sprite@, x, y, row as int, 8, 0),
                );
            }
            row = row + 1;
        }
        assert forall|k: int| 0 <= k < DISPLAY_SIZE implies self@[k] == draw_sprite(
            old(self)@,
            sprite@,
            x,
            y,
        )[k] by {
            assert(covered_so_far(sprite@, x, y, row as int, 0, k) == sprite_covers(sprite@, x, y, k));
        }
        assert(self@ =~= draw_sprite(old(self)@, sprite@, x, y));
        assert(flipped == sprite_collides(old(self)@, sprite@, x, y)) by {
            if flipped {
                let k = choose|k: int|
                    0 <= k < DISPLAY_SIZE && old(self).pixels@[k] && #[trigger] covered_so_far(
                        sprite@,
                        x,
                        y,
                        row as int,
                        0,
                        k,
                    );
                assert(sprite_covers(sprite@, x, y, k));
            }
            if sprite_collides(old(self)@, sprite@, x, y) {
                let k = choose|k: int|
                    0 <= k < DISPLAY_SIZE && old(self)@[k] && #[trigger] sprite_covers(
                        sprite@,
                        x,
                        y,
                        k,
                    );
                assert(covered_so_far(sprite@, x, y, row as int, 0, k));
            }
        }
        flipped
    }
}

} // verus!
