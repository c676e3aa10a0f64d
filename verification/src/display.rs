//! The frame buffer: a grid of 64 by 32 cells, each lit or unlit, stored row
//! by row. Cells change only by a full clear or by toggling.

use vstd::prelude::*;

verus! {

/// Cells in a row of the grid.
pub const WIDTH: usize = 64;

/// Rows of the grid.
pub const HEIGHT: usize = 32;

/// Default colour of a lit cell in a packed pixel buffer.
pub const ON: u32 = 0xFF_FF_FF_FF;

/// Default colour of an unlit cell in a packed pixel buffer.
pub const OFF: u32 = 0x0;

/// The glyphs of the sixteen hexadecimal digits, five bytes each, in the
/// order of the digits: the glyph of digit `d` starts at offset `5 * d`.
pub const FONT_SET: [u8; 80] = [
    0xF0, 0x90, 0x90, 0x90, 0xF0,
    0x20, 0x60, 0x20, 0x20, 0x70,
    0xF0, 0x10, 0xF0, 0x80, 0xF0,
    0xF0, 0x10, 0xF0, 0x10, 0xF0,
    0x90, 0x90, 0xF0, 0x10, 0x10,
    0xF0, 0x80, 0xF0, 0x10, 0xF0,
    0xF0, 0x80, 0xF0, 0x90, 0xF0,
    0xF0, 0x10, 0x20, 0x40, 0x40,
    0xF0, 0x90, 0xF0, 0x90, 0xF0,
    0xF0, 0x90, 0xF0, 0x10, 0xF0,
    0xF0, 0x90, 0xF0, 0x90, 0x90,
    0xE0, 0x90, 0xE0, 0x90, 0xE0,
    0xF0, 0x80, 0x80, 0x80, 0xF0,
    0xE0, 0x90, 0x90, 0x90, 0xE0,
    0xF0, 0x80, 0xF0, 0x80, 0xF0,
    0xF0, 0x80, 0xF0, 0x80, 0x80,
];

/// The grid. The cell in column `x` of row `y` is `memory[x + 64 * y]`.
pub struct Display {
    pub memory: [bool; 2048],
}

/// Whether a sprite row has its pixel in column `col` set. Column 0 is the
/// leftmost pixel and the most significant bit.
pub open spec fn sprite_bit(row: u8, col: u8) -> bool {
    row & (0x80u8 >> col) != 0
}

/// Whether a sprite row placed with its leftmost pixel in column `x` of row
/// `y` has a set pixel on cell `k` of the grid.
pub open spec fn row_covers(bits: u8, x: int, y: int, k: int) -> bool {
    &&& k / 64 == y
    &&& 0 <= k % 64 - x < 8
    &&& sprite_bit(bits, (k % 64 - x) as u8)
}

/// Whether a sprite, one byte per row from the top, placed with its top left
/// pixel in column `x` of row `y`, has a set pixel on cell `k` of the grid.
/// Pixels that fall beyond the right or the lower edge are on no cell.
pub open spec fn sprite_covers(sprite: Seq<u8>, x: int, y: int, k: int) -> bool {
    &&& 0 <= k / 64 - y < sprite.len()
    &&& row_covers(sprite[k / 64 - y], x, k / 64, k)
}

/// The grid after a sprite was drawn on it: each cell under a set pixel is
/// toggled, every other cell is kept.
pub open spec fn sprite_drawn(grid: Seq<bool>, sprite: Seq<u8>, x: int, y: int) -> Seq<bool> {
    Seq::new(grid.len(), |k: int| grid[k] != sprite_covers(sprite, x, y, k))
}

/// Whether drawing a sprite turns off a cell that is lit.
pub open spec fn sprite_collides(grid: Seq<bool>, sprite: Seq<u8>, x: int, y: int) -> bool {
    exists|k: int| 0 <= k < grid.len() && #[trigger] grid[k] && sprite_covers(sprite, x, y, k)
}

/// The grid after one sprite row was drawn on it.
pub open spec fn row_drawn(grid: Seq<bool>, bits: u8, x: int, y: int) -> Seq<bool> {
    Seq::new(grid.len(), |k: int| grid[k] != row_covers(bits, x, y, k))
}

/// Whether drawing one sprite row turns off a cell that is lit.
pub open spec fn row_collides(grid: Seq<bool>, bits: u8, x: int, y: int) -> bool {
    exists|k: int| 0 <= k < grid.len() && #[trigger] grid[k] && row_covers(bits, x, y, k)
}

/// The packed pixel buffer of a grid: one colour per cell.
pub open spec fn screen_buffer(grid: Seq<bool>, on: u32, off: u32) -> Seq<u32> {
    Seq::new(grid.len(), |k: int| if grid[k] { on } else { off })
}

/// Drawing a sprite twice at the same place gives back the grid as it was.
/// The second drawing turns a cell off exactly if the sprite has a set pixel
/// on a cell that the first drawing lit, and it does so at every such cell.
pub proof fn lemma_sprite_drawn_twice(grid: Seq<bool>, sprite: Seq<u8>, x: int, y: int)
    ensures
        sprite_drawn(sprite_drawn(grid, sprite, x, y), sprite, x, y) == grid,
        sprite_collides(sprite_drawn(grid, sprite, x, y), sprite, x, y) <==> exists|k: int|
            0 <= k < grid.len() && !#[trigger] grid[k] && sprite_covers(sprite, x, y, k),
        forall|k: int|
            0 <= k < grid.len() && sprite_covers(sprite, x, y, k) && !#[trigger] grid[k]
                ==> sprite_drawn(grid, sprite, x, y)[k] && sprite_collides(
                sprite_drawn(grid, sprite, x, y),
                sprite,
                x,
                y,
            ),
{
    let once = sprite_drawn(grid, sprite, x, y);
    assert(sprite_drawn(once, sprite, x, y) =~= grid);
    if sprite_collides(once, sprite, x, y) {
        let k = choose|k: int|
            0 <= k < once.len() && #[trigger] once[k] && sprite_covers(sprite, x, y, k);
        assert(!grid[k]);
    }
    assert forall|k: int|
        0 <= k < grid.len() && sprite_covers(sprite, x, y, k) && !#[trigger] grid[k] implies once[k]
        && sprite_collides(once, sprite, x, y) by {
        assert(once[k]);
    }
}

/// A sprite is clipped at the edges of the grid, not wrapped: drawing it
/// changes no cell to the left of its first column or above its first row,
/// and none that is eight columns or its number of rows away from them or
/// further. So what falls beyond the right or the lower edge shows up
/// nowhere.
pub proof fn lemma_sprite_clips(grid: Seq<bool>, sprite: Seq<u8>, x: int, y: int, k: int)
    requires
        0 <= k < grid.len(),
        k % 64 < x || k % 64 >= x + 8 || k / 64 < y || k / 64 >= y + sprite.len(),
    ensures
        sprite_drawn(grid, sprite, x, y)[k] == grid[k],
        !sprite_covers(sprite, x, y, k),
{
}

/// Toggling a cell twice leaves it as it was, and exactly one of the two
/// toggles turns it off.
pub proof fn lemma_cell_toggled_twice(grid: Seq<bool>, cell: int)
    requires
        0 <= cell < grid.len(),
    ensures
        grid.update(cell, !grid[cell]).update(cell, !grid.update(cell, !grid[cell])[cell]) == grid,
        grid.update(cell, !grid[cell])[cell] != grid[cell],
{
    assert(grid.update(cell, !grid[cell]).update(cell, !grid.update(cell, !grid[cell])[cell])
        =~= grid);
}

impl Display {
    /// A grid with every cell unlit.
    pub fn new() -> (display: Display)
        ensures
            display.memory@ == Seq::new(2048, |k: int| false),
    {
        Display { memory: [false; 2048] }
    }

    /// Turns every cell off.
    pub fn cls(&mut self)
        ensures
            final(self).memory@ == Seq::new(2048, |k: int| false),
    {
        self.memory = [false; 2048];
    }

    /// Toggles the cell in column `x` of row `y` and tells whether that
    /// turned it off.
    pub fn draw(&mut self, x: u8, y: u8) -> (unset: bool)
        requires
            x < WIDTH,
            y < HEIGHT,
        ensures
            unset == old(self).memory@[x + 64 * y],
            final(self).memory@ == old(self).memory@.update(x + 64 * y, !unset),
    {
        let cell: usize = x as usize + (y as usize * WIDTH);
        self.memory[cell] = !self.memory[cell];
        !self.memory[cell]
    }

    /// Draws one sprite row with its leftmost pixel in column `x` of row
    /// `y`, dropping the pixels that fall beyond the right edge, and tells
    /// whether a cell was turned off.
    pub fn draw_row(&mut self, x: u8, y: u8, bits: u8) -> (hit: bool)
        requires
            y < HEIGHT,
        ensures
            final(self).memory@ == row_drawn(old(self).memory@, bits, x as int, y as int),
            hit == row_collides(old(self).memory@, bits, x as int, y as int),
    {
        let mut hit = false;
        let mut col: u8 = 0;
        let ghost before = self.memory@;
        let ghost mut witness: int = 0;
        while col < 8 && (x as usize) + (col as usize) < WIDTH
            invariant
                y < HEIGHT,
                col <= 8,
                before.len() == 2048,
                forall|k: int|
                    0 <= k < 2048 ==> #[trigger] self.memory@[k] == (before[k] != (row_covers(
                        bits,
                        x as int,
                        y as int,
                        k,
                    ) && k % 64 - x < col)),
                hit ==> 0 <= witness < 2048 && before[witness] && row_covers(
                    bits,
                    x as int,
                    y as int,
                    witness,
                ),
                !hit ==> forall|k: int|
                    0 <= k < 2048 && #[trigger] before[k] && row_covers(bits, x as int, y as int, k)
                        ==> k % 64 - x >= col,
            decreases 8 - col,
        {
            let ghost cell: int = x + col + 64 * y;
            if bits & (0x80u8 >> col) != 0 {
                let ghost mid = self.memory@;
                let unset = self.draw(x + col, y);
                proof {
                    assert(cell / 64 == y as int && cell % 64 == x + col);
                    assert(row_covers(bits, x as int, y as int, cell));
                    assert(mid[cell] == before[cell]);
                    if unset && !hit {
                        witness = cell;
                    }
                }
                hit = hit || unset;
            }
            proof {
                assert forall|k: int| 0 <= k < 2048 && row_covers(bits, x as int, y as int, k) && k
                    % 64 - x == col implies k == cell by {}
            }
            col = col + 1;
        }
        proof {
            assert forall|k: int| 0 <= k < 2048 implies #[trigger] self.memory@[k] == (before[k]
                != row_covers(bits, x as int, y as int, k)) by {}
            assert(self.memory@ =~= row_drawn(before, bits, x as int, y as int));
        }
        hit
    }

    /// Draws a sprite, one byte per row from the top, with its top left
    /// pixel in column `x` of row `y`. Pixels beyond the right or the lower
    /// edge are dropped, not wrapped. Tells whether a cell was turned off.
    pub fn draw_sprite(&mut self, x: u8, y: u8, sprite: &[u8]) -> (hit: bool)
        ensures
            final(self).memory@ == sprite_drawn(old(self).memory@, sprite@, x as int, y as int),
            hit == sprite_collides(old(self).memory@, sprite@, x as int, y as int),
    {
        let mut hit = false;
        let mut row: usize = 0;
        let ghost before = self.memory@;
        let ghost mut witness: int = 0;
        while row < sprite.len() && (y as usize) + row < HEIGHT
            invariant
                row <= sprite.len(),
                row <= HEIGHT,
                before.len() == 2048,
                forall|k: int|
                    0 <= k < 2048 ==> #[trigger] self.memory@[k] == (before[k] != (sprite_covers(
                        sprite@,
                        x as int,
                        y as int,
                        k,
                    ) && k / 64 - y < row)),
                hit ==> 0 <= witness < 2048 && before[witness] && sprite_covers(
                    sprite@,
                    x as int,
                    y as int,
                    witness,
                ),
                !hit ==> forall|k: int|
                    0 <= k < 2048 && #[trigger] before[k] && sprite_covers(
                        sprite@,
                        x as int,
                        y as int,
                        k,
                    ) ==> k / 64 - y >= row,
            decreases sprite.len() - row,
        {
            let ghost mid = self.memory@;
            let line: u8 = (y as usize + row) as u8;
            let unset = self.draw_row(x, line, sprite[row]);
            proof {
                assert forall|k: int| 0 <= k < 2048 implies (row_covers(
                    sprite@[row as int],
                    x as int,
                    line as int,
                    k,
                ) <==> sprite_covers(sprite@, x as int, y as int, k) && k / 64 - y == row) by {}
                if unset && !hit {
                    let k = choose|k: int|
                        0 <= k < 2048 && #[trigger] mid[k] && row_covers(
                            sprite@[row as int],
                            x as int,
                            line as int,
                            k,
                        );
                    assert(mid[k] == before[k]);
                    witness = k;
                }
                if !unset {
                    assert forall|k: int|
                        0 <= k < 2048 && #[trigger] before[k] && sprite_covers(
                            sprite@,
                            x as int,
                            y as int,
                            k,
                        ) && k / 64 - y == row implies false by {
                        assert(mid[k]);
                    }
                }
            }
            hit = hit || unset;
            row = row + 1;
        }
        proof {
            assert forall|k: int| 0 <= k < 2048 implies #[trigger] self.memory@[k] == (before[k]
                != sprite_covers(sprite@, x as int, y as int, k)) by {}
            assert(self.memory@ =~= sprite_drawn(before, sprite@, x as int, y as int));
        }
        hit
    }

    /// The grid as a packed pixel buffer: `on` for each lit cell and `off`
    /// for each unlit one.
    pub fn get_screen_buffer(&self, on: u32, off: u32) -> (buffer: [u32; 2048])
        ensures
            buffer@ == screen_buffer(self.memory@, on, off),
    {
        let mut buffer: [u32; 2048] = [off; 2048];
        let mut k: usize = 0;
        while k < 2048
            invariant
                k <= 2048,
                forall|j: int| 0 <= j < k ==> #[trigger] buffer@[j] == (if self.memory@[j] {
                    on
                } else {
                    off
                }),
            decreases 2048 - k,
        {
            buffer[k] = if self.memory[k] { on } else { off };
            k = k + 1;
        }
        assert(buffer@ =~= screen_buffer(self.memory@, on, off));
        buffer
    }
}

impl Default for Display {
    /// A grid with every cell unlit.
    fn default() -> (display: Self)
        ensures
            display.memory@ == Seq::new(2048, |k: int| false),
    {
        Display::new()
    }
}

} // verus!
