//! The framebuffer: a grid of one-bit pixels, with sprite drawing and
//! scrolling.
//!
//! A grid is modelled as a sequence of rows, each a sequence of bytes that
//! are 0 or 1. [`blit`] and [`collides`] say what drawing a sprite does, the
//! `scrolled_*` functions say what scrolling does; [`Screen`] computes them.

use vstd::prelude::*;

verus! {

/// A sprite as it is drawn.
///
/// Each row is a 16-bit word whose most significant bit is the leftmost
/// pixel; a sprite that is not `wide` uses the upper eight bits only. A
/// `doubled` sprite shows every pixel as a block of two by two.
pub struct Sprite {
    pub rows: Seq<u16>,
    pub wide: bool,
    pub doubled: bool,
}

impl Sprite {
    /// How many grid columns the sprite spans.
    pub open spec fn columns(self) -> int {
        if self.wide || self.doubled {
            16
        } else {
            8
        }
    }

    /// How many grid rows the sprite spans.
    pub open spec fn lines(self) -> int {
        if self.doubled {
            2 * (self.rows.len() as int)
        } else {
            self.rows.len() as int
        }
    }

    /// The row word behind grid line `line` of the sprite.
    pub open spec fn word(self, line: int) -> u16 {
        if self.doubled {
            self.rows[line / 2]
        } else {
            self.rows[line]
        }
    }

    /// The pixel of the sprite at `line` and `column`, 0 or 1.
    pub open spec fn bit(self, line: int, column: int) -> u8 {
        pixel_of(
            self.word(line),
            if self.doubled {
                column / 2
            } else {
                column
            },
        )
    }

    /// Whether a sprite with its corner at row `y0`, column `x0` has a pixel
    /// at row `r`, column `c`.
    pub open spec fn covers(self, x0: int, y0: int, r: int, c: int) -> bool {
        y0 <= r < y0 + self.lines() && x0 <= c < x0 + self.columns()
    }
}

/// Bit `position` of `word`, counted from the most significant bit.
pub open spec fn pixel_of(word: u16, position: int) -> u8 {
    ((word >> ((15 - position) as u16)) & 1) as u8
}

/// The grid has `height` rows of `width` pixels.
pub open spec fn shaped(grid: Seq<Seq<u8>>, width: int, height: int) -> bool {
    grid.len() == height && forall|r: int| 0 <= r < height ==> (#[trigger] grid[r]).len() == width
}

/// Every pixel is 0 or 1.
pub open spec fn is_bitmap(grid: Seq<Seq<u8>>) -> bool {
    forall|r: int, c: int| 0 <= r < grid.len() && 0 <= c < grid[r].len() ==> #[trigger] grid[r][c] <= 1
}

/// A grid with every pixel off.
pub open spec fn blank(width: int, height: int) -> Seq<Seq<u8>> {
    Seq::new(height as nat, |r: int| Seq::new(width as nat, |c: int| 0u8))
}

/// The part of a sprite that has been drawn once `lines` whole lines and
/// `columns` pixels of the next line are done.
pub open spec fn reached(y0: int, x0: int, r: int, c: int, lines: int, columns: int) -> bool {
    r - y0 < lines || (r - y0 == lines && c - x0 < columns)
}

/// Whether the sprite's pixel at `r`, `c` is on where the grid's pixel is on
/// too.
pub open spec fn clash(grid: Seq<Seq<u8>>, sprite: Sprite, x0: int, y0: int, r: int, c: int) -> bool {
    grid[r][c] & sprite.bit(r - y0, c - x0) == 1
}

/// The grid with the first `lines` lines and `columns` pixels of the next
/// line of `sprite` drawn.
pub open spec fn blit_partial(
    grid: Seq<Seq<u8>>,
    sprite: Sprite,
    x0: int,
    y0: int,
    lines: int,
    columns: int,
) -> Seq<Seq<u8>> {
    Seq::new(
        grid.len(),
        |r: int|
            Seq::new(
                grid[r].len(),
                |c: int|
                    if sprite.covers(x0, y0, r, c) && reached(y0, x0, r, c, lines, columns) {
                        grid[r][c] ^ sprite.bit(r - y0, c - x0)
                    } else {
                        grid[r][c]
                    },
            ),
    )
}

/// Whether the part of `sprite` that [`blit_partial`] draws hits a pixel
/// that is on.
pub open spec fn collides_partial(
    grid: Seq<Seq<u8>>,
    sprite: Sprite,
    x0: int,
    y0: int,
    lines: int,
    columns: int,
) -> bool {
    exists|r: int, c: int|
        0 <= r < grid.len() && 0 <= c < grid[r].len() && sprite.covers(x0, y0, r, c) && reached(
            y0,
            x0,
            r,
            c,
            lines,
            columns,
        ) && #[trigger] clash(grid, sprite, x0, y0, r, c)
}

/// The grid after `sprite` is drawn with its corner at row `y0`, column
/// `x0`: every pixel that the sprite covers is XORed with the sprite's
/// pixel. What falls outside the grid is clipped, not wrapped.
pub open spec fn blit(grid: Seq<Seq<u8>>, sprite: Sprite, x0: int, y0: int) -> Seq<Seq<u8>> {
    Seq::new(
        grid.len(),
        |r: int|
            Seq::new(
                grid[r].len(),
                |c: int|
                    if sprite.covers(x0, y0, r, c) {
                        grid[r][c] ^ sprite.bit(r - y0, c - x0)
                    } else {
                        grid[r][c]
                    },
            ),
    )
}

/// Whether drawing `sprite` turns a pixel off: some pixel of the grid is on
/// where the sprite's pixel is on.
pub open spec fn collides(grid: Seq<Seq<u8>>, sprite: Sprite, x0: int, y0: int) -> bool {
    exists|r: int, c: int|
        0 <= r < grid.len() && 0 <= c < grid[r].len() && sprite.covers(x0, y0, r, c)
            && #[trigger] clash(grid, sprite, x0, y0, r, c)
}

/// The grid moved `amount` columns to the right; the columns that open up
/// on the left are off.
pub open spec fn scrolled_right(grid: Seq<Seq<u8>>, amount: int) -> Seq<Seq<u8>> {
    Seq::new(
        grid.len(),
        |r: int|
            Seq::new(
                grid[r].len(),
                |c: int|
                    if c >= amount {
                        grid[r][c - amount]
                    } else {
                        0u8
                    },
            ),
    )
}

/// The grid moved `amount` columns to the left; the columns that open up on
/// the right are off.
pub open spec fn scrolled_left(grid: Seq<Seq<u8>>, amount: int) -> Seq<Seq<u8>> {
    Seq::new(
        grid.len(),
        |r: int|
            Seq::new(
                grid[r].len(),
                |c: int|
                    if c + amount < grid[r].len() {
                        grid[r][c + amount]
                    } else {
                        0u8
                    },
            ),
    )
}

/// The grid moved `amount` rows down; the rows that open up at the top are
/// off.
pub open spec fn scrolled_down(grid: Seq<Seq<u8>>, amount: int) -> Seq<Seq<u8>> {
    Seq::new(
        grid.len(),
        |r: int|
            Seq::new(
                grid[r].len(),
                |c: int|
                    if r >= amount {
                        grid[r - amount][c]
                    } else {
                        0u8
                    },
            ),
    )
}

/// The grid moved `right - left` columns to the right and `down` rows down;
/// what moves in from outside is off.
pub open spec fn shifted(grid: Seq<Seq<u8>>, left: int, right: int, down: int) -> Seq<Seq<u8>> {
    Seq::new(
        grid.len(),
        |r: int|
            Seq::new(
                grid[r].len(),
                |c: int|
                    if r >= down && 0 <= c + left - right < grid[r].len() {
                        grid[r - down][c + left - right]
                    } else {
                        0u8
                    },
            ),
    )
}

/// A framebuffer of `H` rows and `W` columns.
pub struct Screen<const W: usize, const H: usize> {
    rows: [[u8; W]; H],
}

impl<const W: usize, const H: usize> View for Screen<W, H> {
    type V = Seq<Seq<u8>>;

    closed spec fn view(&self) -> Seq<Seq<u8>> {
        Seq::new(H as nat, |r: int| self.rows@[r]@)
    }
}

impl<const W: usize, const H: usize> Screen<W, H> {
    /// The model of any screen has `H` rows of `W` pixels.
    pub proof fn lemma_shaped(&self)
        ensures
            shaped(self@, W as int, H as int),
    {
    }

    /// A screen with every pixel off.
    pub fn new() -> (screen: Self)
        ensures
            screen@ == blank(W as int, H as int),
    {
        let screen = Screen { rows: [[0u8; W]; H] };
        assert(screen@ =~~= blank(W as int, H as int));
        screen
    }

    /// Turns every pixel off.
    pub fn clear(&mut self)
        ensures
            final(self)@ == blank(W as int, H as int),
    {
        self.rows = [[0u8; W]; H];
        assert(self@ =~~= blank(W as int, H as int));
    }

    /// The pixel at row `r`, column `c`.
    pub fn pixel(&self, r: usize, c: usize) -> (value: u8)
        requires
            r < H,
            c < W,
        ensures
            value == self@[r as int][c as int],
    {
        self.rows[r][c]
    }

    /// XORs `bit` into the pixel at row `r`, column `c`, and returns what the
    /// pixel was.
    fn flip(&mut self, r: usize, c: usize, bit: u8) -> (under: u8)
        requires
            r < H,
            c < W,
        ensures
            under == old(self)@[r as int][c as int],
            final(self)@ == old(self)@.update(
                r as int,
                old(self)@[r as int].update(c as int, under ^ bit),
            ),
    {
        let under = self.rows[r][c];
        self.rows[r][c] = under ^ bit;
        assert(self@ =~~= old(self)@.update(
            r as int,
            old(self)@[r as int].update(c as int, under ^ bit),
        ));
        under
    }

    /// Writes `value` to the pixel at row `r`, column `c`.
    fn put(&mut self, r: usize, c: usize, value: u8)
        requires
            r < H,
            c < W,
        ensures
            final(self)@ == old(self)@.update(r as int, old(self)@[r as int].update(c as int, value)),
    {
        self.rows[r][c] = value;
        assert(self@ =~~= old(self)@.update(
            r as int,
            old(self)@[r as int].update(c as int, value),
        ));
    }

    /// Moves the picture `right - left` columns to the right and `down`
    /// rows down.
    fn shift(&mut self, left: usize, right: usize, down: usize)
        requires
            left <= W,
            right <= W,
            down <= H,
        ensures
            final(self)@ == shifted(old(self)@, left as int, right as int, down as int),
    {
        let source = Screen { rows: self.rows };
        let ghost target = shifted(source@, left as int, right as int, down as int);
        assert(source@ =~~= old(self)@);
        let mut r: usize = 0;
        while r < H
            invariant
                left <= W,
                right <= W,
                down <= H,
                r <= H,
                target == shifted(source@, left as int, right as int, down as int),
                shaped(self@, W as int, H as int),
                shaped(source@, W as int, H as int),
                forall|i: int, j: int| 0 <= i < r && 0 <= j < W ==> self@[i][j] == target[i][j],
            decreases H - r,
        {
            let mut c: usize = 0;
            while c < W
                invariant
                    left <= W,
                    right <= W,
                    down <= H,
                    r < H,
                    c <= W,
                    target == shifted(source@, left as int, right as int, down as int),
                    shaped(self@, W as int, H as int),
                    shaped(source@, W as int, H as int),
                    forall|i: int, j: int| 0 <= i < r && 0 <= j < W ==> self@[i][j] == target[i][j],
                    forall|j: int| 0 <= j < c ==> self@[r as int][j] == target[r as int][j],
                decreases W - c,
            {
                let value = if r < down {
                    0
                } else if left >= right {
                    if c < W - (left - right) {
                        source.rows[r - down][c + (left - right)]
                    } else {
                        0
                    }
                } else if c >= right - left {
                    source.rows[r - down][c - (right - left)]
                } else {
                    0
                };
                assert(value == target[r as int][c as int]);
                self.put(r, c, value);
                c += 1;
            }
            r += 1;
        }
        assert(self@ =~~= target);
    }

    /// Moves the picture `amount` columns to the right.
    pub fn scroll_right(&mut self, amount: usize)
        requires
            amount <= W,
        ensures
            final(self)@ == scrolled_right(old(self)@, amount as int),
    {
        self.shift(0, amount, 0);
        assert(self@ =~~= scrolled_right(old(self)@, amount as int));
    }

    /// Moves the picture `amount` columns to the left.
    pub fn scroll_left(&mut self, amount: usize)
        requires
            amount <= W,
        ensures
            final(self)@ == scrolled_left(old(self)@, amount as int),
    {
        self.shift(amount, 0, 0);
        assert(self@ =~~= scrolled_left(old(self)@, amount as int));
    }

    /// Moves the picture `amount` rows down.
    pub fn scroll_down(&mut self, amount: usize)
        requires
            amount <= H,
        ensures
            final(self)@ == scrolled_down(old(self)@, amount as int),
    {
        self.shift(0, 0, amount);
        assert(self@ =~~= scrolled_down(old(self)@, amount as int));
    }

    /// The rows from top to bottom.
    pub fn rows(&self) -> (out: Vec<&[u8]>)
        ensures
            out@.len() == H,
            forall|r: int| 0 <= r < H ==> (#[trigger] out@[r])@ == self@[r],
    {
        let mut out: Vec<&[u8]> = Vec::new();
        let mut r: usize = 0;
        while r < H
            invariant
                r <= H,
                out@.len() == r,
                forall|k: int| 0 <= k < r ==> (#[trigger] out@[k])@ == self@[k],
            decreases H - r,
        {
            out.push(self.rows[r].as_slice());
            r += 1;
        }
        out
    }

    /// Draws a sprite with its corner at row `y0`, column `x0`, and tells
    /// whether it hit a pixel that was on.
    pub fn draw(&mut self, x0: usize, y0: usize, rows: &Vec<u16>, wide: bool, doubled: bool) -> (hit:
        bool)
        requires
            x0 < W,
            y0 < H,
            2 * rows@.len() <= usize::MAX,
        ensures
            final(self)@ == blit(old(self)@, Sprite { rows: rows@, wide, doubled }, x0 as int, y0 as int),
            hit == collides(old(self)@, Sprite { rows: rows@, wide, doubled }, x0 as int, y0 as int),
    {
        let ghost sprite = Sprite { rows: rows@, wide, doubled };
        let ghost before = self@;
        let lines: usize = if doubled {
            2 * rows.len()
        } else {
            rows.len()
        };
        let columns: usize = if wide || doubled {
            16
        } else {
            8
        };
        let mut hit = false;
        let mut line: usize = 0;
        assert(self@ =~~= blit_partial(before, sprite, x0 as int, y0 as int, 0, 0));
        while line < lines && y0 < H - line
            invariant
                x0 < W,
                y0 < H,
                2 * rows@.len() <= usize::MAX,
                sprite == (Sprite { rows: rows@, wide, doubled }),
                lines == sprite.lines(),
                columns == sprite.columns(),
                line <= lines,
                y0 + line <= H,
                shaped(before, W as int, H as int),
                self@ == blit_partial(before, sprite, x0 as int, y0 as int, line as int, 0),
                hit == collides_partial(before, sprite, x0 as int, y0 as int, line as int, 0),
            decreases lines - line,
        {
            let word = rows[if doubled {
                line / 2
            } else {
                line
            }];
            let mut column: usize = 0;
            while column < columns && x0 < W - column
                invariant
                    x0 < W,
                    y0 + line < H,
                    line < lines,
                    sprite == (Sprite { rows: rows@, wide, doubled }),
                    lines == sprite.lines(),
                    columns == sprite.columns(),
                    word == sprite.word(line as int),
                    column <= columns,
                    x0 + column <= W,
                    shaped(before, W as int, H as int),
                    self@ == blit_partial(
                        before,
                        sprite,
                        x0 as int,
                        y0 as int,
                        line as int,
                        column as int,
                    ),
                    hit == collides_partial(
                        before,
                        sprite,
                        x0 as int,
                        y0 as int,
                        line as int,
                        column as int,
                    ),
                decreases columns - column,
            {
                let position: usize = if doubled {
                    column / 2
                } else {
                    column
                };
                assert((word >> ((15 - position) as u16)) & 1 <= 1) by (bit_vector);
                let bit = ((word >> ((15 - position) as u16)) & 1) as u8;
                let r = y0 + line;
                let c = x0 + column;
                assert(bit == sprite.bit(line as int, column as int));
                let ghost drawn = self@;
                let under = self.flip(r, c, bit);
                if under & bit == 1 {
                    hit = true;
                }
                proof {
                    assert(under == before[r as int][c as int]);
                    assert(self@ =~~= blit_partial(
                        before,
                        sprite,
                        x0 as int,
                        y0 as int,
                        line as int,
                        column + 1,
                    ));
                    if clash(before, sprite, x0 as int, y0 as int, r as int, c as int) {
                        assert(sprite.covers(x0 as int, y0 as int, r as int, c as int));
                        assert(reached(y0 as int, x0 as int, r as int, c as int, line as int, column + 1));
                    }
                    assert(hit == collides_partial(
                        before,
                        sprite,
                        x0 as int,
                        y0 as int,
                        line as int,
                        column + 1,
                    ));
                }
                column += 1;
            }
            proof {
                assert(self@ =~~= blit_partial(
                    before,
                    sprite,
                    x0 as int,
                    y0 as int,
                    line + 1,
                    0,
                ));
                assert(hit == collides_partial(
                    before,
                    sprite,
                    x0 as int,
                    y0 as int,
                    line + 1,
                    0,
                ));
            }
            line += 1;
        }
        proof {
            assert(self@ =~~= blit(before, sprite, x0 as int, y0 as int));
            assert(hit == collides(before, sprite, x0 as int, y0 as int));
        }
        hit
    }
}

/// A pixel of a sprite is 0 or 1.
pub proof fn sprite_pixels_are_bits(word: u16, position: int)
    requires
        0 <= position < 16,
    ensures
        pixel_of(word, position) <= 1,
{
    let shift = (15 - position) as u16;
    assert((word >> shift) & 1 <= 1) by (bit_vector);
}

/// XOR of two bits is a bit, and XORing the same bit in twice changes
/// nothing.
proof fn xor_of_bits(a: u8, b: u8)
    ensures
        a <= 1 && b <= 1 ==> a ^ b <= 1,
        (a ^ b) ^ b == a,
{
    assert(a <= 1 && b <= 1 ==> a ^ b <= 1) by (bit_vector);
    assert((a ^ b) ^ b == a) by (bit_vector);
}

/// A blank grid is a bitmap.
pub proof fn blank_is_bitmap(width: int, height: int)
    requires
        0 <= width,
        0 <= height,
    ensures
        is_bitmap(blank(width, height)),
        shaped(blank(width, height), width, height),
{
}

/// Drawing keeps a bitmap a bitmap, and keeps its shape.
pub proof fn blit_keeps_bitmap(grid: Seq<Seq<u8>>, sprite: Sprite, x0: int, y0: int)
    requires
        is_bitmap(grid),
    ensures
        is_bitmap(blit(grid, sprite, x0, y0)),
        forall|width: int, height: int|
            shaped(grid, width, height) ==> shaped(blit(grid, sprite, x0, y0), width, height),
{
    let drawn = blit(grid, sprite, x0, y0);
    assert forall|r: int, c: int| 0 <= r < drawn.len() && 0 <= c < drawn[r].len() implies #[trigger] drawn[r][c]
        <= 1 by {
        assert(grid[r][c] <= 1);
        if sprite.covers(x0, y0, r, c) {
            let position = if sprite.doubled {
                (c - x0) / 2
            } else {
                c - x0
            };
            sprite_pixels_are_bits(sprite.word(r - y0), position);
            xor_of_bits(grid[r][c], sprite.bit(r - y0, c - x0));
        }
    }
}

/// Drawing the same sprite at the same place twice gives the grid back.
pub proof fn blit_twice_restores(grid: Seq<Seq<u8>>, sprite: Sprite, x0: int, y0: int)
    ensures
        blit(blit(grid, sprite, x0, y0), sprite, x0, y0) == grid,
{
    let once = blit(grid, sprite, x0, y0);
    let twice = blit(once, sprite, x0, y0);
    assert forall|r: int, c: int| 0 <= r < grid.len() && 0 <= c < grid[r].len() implies twice[r][c]
        == grid[r][c] by {
        if sprite.covers(x0, y0, r, c) {
            xor_of_bits(grid[r][c], sprite.bit(r - y0, c - x0));
        }
    }
    assert(twice =~~= grid);
}

/// On a bitmap, a sprite collides exactly where drawing it turns a pixel
/// off.
pub proof fn collision_turns_a_pixel_off(grid: Seq<Seq<u8>>, sprite: Sprite, x0: int, y0: int)
    requires
        is_bitmap(grid),
    ensures
        collides(grid, sprite, x0, y0) <==> exists|r: int, c: int|
            0 <= r < grid.len() && 0 <= c < grid[r].len() && #[trigger] grid[r][c] == 1 && blit(
                grid,
                sprite,
                x0,
                y0,
            )[r][c] == 0,
{
    let drawn = blit(grid, sprite, x0, y0);
    assert forall|r: int, c: int| 0 <= r < grid.len() && 0 <= c < grid[r].len() implies (
    sprite.covers(x0, y0, r, c) && clash(grid, sprite, x0, y0, r, c) <==> grid[r][c] == 1
        && drawn[r][c] == 0) by {
        assert(grid[r][c] <= 1);
        if sprite.covers(x0, y0, r, c) {
            let position = if sprite.doubled {
                (c - x0) / 2
            } else {
                c - x0
            };
            sprite_pixels_are_bits(sprite.word(r - y0), position);
            let a = grid[r][c];
            let b = sprite.bit(r - y0, c - x0);
            assert(a <= 1 && b <= 1 ==> (a & b == 1 <==> a == 1 && a ^ b == 0)) by (bit_vector);
        }
    }
    if collides(grid, sprite, x0, y0) {
        let (r, c) = choose|r: int, c: int|
            0 <= r < grid.len() && 0 <= c < grid[r].len() && sprite.covers(x0, y0, r, c)
                && #[trigger] clash(grid, sprite, x0, y0, r, c);
        assert(grid[r][c] == 1 && drawn[r][c] == 0);
    }
    if exists|r: int, c: int|
        0 <= r < grid.len() && 0 <= c < grid[r].len() && #[trigger] grid[r][c] == 1 && drawn[r][c]
            == 0 {
        let (r, c) = choose|r: int, c: int|
            0 <= r < grid.len() && 0 <= c < grid[r].len() && #[trigger] grid[r][c] == 1
                && drawn[r][c] == 0;
        assert(sprite.covers(x0, y0, r, c) && clash(grid, sprite, x0, y0, r, c));
    }
}

/// Scrolling keeps a bitmap a bitmap, and keeps its shape.
pub proof fn scrolls_keep_bitmap(grid: Seq<Seq<u8>>, width: int, height: int, amount: int)
    requires
        is_bitmap(grid),
        shaped(grid, width, height),
        0 <= amount,
    ensures
        is_bitmap(scrolled_right(grid, amount)),
        is_bitmap(scrolled_left(grid, amount)),
        is_bitmap(scrolled_down(grid, amount)),
        shaped(scrolled_right(grid, amount), width, height),
        shaped(scrolled_left(grid, amount), width, height),
        shaped(scrolled_down(grid, amount), width, height),
{
    let right = scrolled_right(grid, amount);
    assert forall|r: int, c: int| 0 <= r < right.len() && 0 <= c < right[r].len() implies #[trigger] right[r][c]
        <= 1 by {
        if c >= amount {
            assert(grid[r][c - amount] <= 1);
        }
    }
    let left = scrolled_left(grid, amount);
    assert forall|r: int, c: int| 0 <= r < left.len() && 0 <= c < left[r].len() implies #[trigger] left[r][c]
        <= 1 by {
        if c + amount < grid[r].len() {
            assert(grid[r][c + amount] <= 1);
        }
    }
    let down = scrolled_down(grid, amount);
    assert forall|r: int, c: int| 0 <= r < down.len() && 0 <= c < down[r].len() implies #[trigger] down[r][c]
        <= 1 by {
        if r >= amount {
            assert(grid[r - amount].len() == width);
            assert(grid[r - amount][c] <= 1);
        }
    }
}

/// Scrolling never wraps: what leaves the grid on one side is gone, and
/// scrolling by the whole width or height leaves a blank grid.
pub proof fn scrolling_out_blanks(grid: Seq<Seq<u8>>, width: int, height: int)
    requires
        shaped(grid, width, height),
        0 <= width,
        0 <= height,
    ensures
        scrolled_right(grid, width) == blank(width, height),
        scrolled_left(grid, width) == blank(width, height),
        scrolled_down(grid, height) == blank(width, height),
{
    assert(scrolled_right(grid, width) =~~= blank(width, height));
    assert(scrolled_left(grid, width) =~~= blank(width, height));
    assert(scrolled_down(grid, height) =~~= blank(width, height));
}

} // verus!
