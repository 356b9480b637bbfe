//! The 64×32 screen, on which sprites are drawn by exclusive or.

use vstd::prelude::*;

verus! {

/// How many pixels a row of the screen holds.
pub const COLUMNS: usize = 64;

/// How many rows the screen holds.
pub const ROWS: usize = 32;

/// A screen with every pixel off.
pub open spec fn blank() -> Seq<bool> {
    Seq::new(2048, |k: int| false)
}

/// Where the pixel in `column` of `row` stands in a row-major screen.
pub open spec fn pixel_index(column: int, row: int) -> int {
    row * 64 + column
}

/// The column of the pixel at `index`.
pub open spec fn column_of(index: int) -> int {
    index % 64
}

/// The row of the pixel at `index`.
pub open spec fn row_of(index: int) -> int {
    index / 64
}

/// Whether the pixel `column` places from the left (0 to 7) is set in the
/// sprite row `bits`; the leftmost pixel is the highest bit.
pub open spec fn sprite_bit(bits: u8, column: int) -> bool {
    0 <= column < 8 && bits & (0x80u8 >> (column as u8)) != 0
}

/// Whether row `index` of a sprite drawn at (`x`, `y`) flips the pixel in
/// `column` of `row`, when that sprite row is `bits`. Both coordinates wrap
/// around the edges of the screen.
pub open spec fn row_flips(x: u8, y: u8, index: int, bits: u8, column: int, row: int) -> bool {
    (y + index) % 32 == row && sprite_bit(bits, (column - x) % 64)
}

/// Whether drawing `sprite` at (`x`, `y`) leaves the pixel in `column` of
/// `row` flipped: whether an odd number of its rows flip that pixel. A sprite
/// of more than 32 rows passes over the same screen row more than once.
pub open spec fn flips(x: u8, y: u8, sprite: Seq<u8>, column: int, row: int) -> bool
    decreases sprite.len(),
{
    if sprite.len() == 0 {
        false
    } else {
        flips(x, y, sprite.drop_last(), column, row) ^ row_flips(
            x,
            y,
            sprite.len() - 1,
            sprite.last(),
            column,
            row,
        )
    }
}

/// The screen `pixels` after `sprite` was drawn onto it at (`x`, `y`): every
/// pixel that the sprite flips is inverted, all others are kept.
pub open spec fn drawn(pixels: Seq<bool>, x: u8, y: u8, sprite: Seq<u8>) -> Seq<bool> {
    Seq::new(
        pixels.len(),
        |k: int| pixels[k] ^ flips(x, y, sprite, column_of(k), row_of(k)),
    )
}

/// Whether bit `j` of row `i` of `sprite` is set and lands on a pixel that
/// is on once rows 0 to `i - 1` have been drawn onto `pixels`.
pub open spec fn lands_on_lit(
    pixels: Seq<bool>,
    x: u8,
    y: u8,
    sprite: Seq<u8>,
    i: int,
    j: int,
) -> bool {
    sprite_bit(sprite[i], j) && drawn(pixels, x, y, sprite.take(i))[pixel_index(
        (x + j) % 64,
        (y + i) % 32,
    )]
}

/// Whether drawing `sprite` onto `pixels` at (`x`, `y`) turns off a pixel
/// that was on: whether some set bit of some sprite row lands on a pixel that
/// is on once the rows above that one have been drawn.
pub open spec fn collides(pixels: Seq<bool>, x: u8, y: u8, sprite: Seq<u8>) -> bool {
    exists|i: int, j: int|
        0 <= i < sprite.len() && #[trigger] lands_on_lit(pixels, x, y, sprite, i, j)
}

/// Whether bit `j` of the sprite row `bits`, drawn into `row` from column `x`
/// on, is set and lands on a pixel of `pixels` that is on.
pub open spec fn lit_under(pixels: Seq<bool>, x: u8, row: int, bits: u8, j: int) -> bool {
    sprite_bit(bits, j) && pixels[pixel_index((x + j) % 64, row)]
}

/// Whether bit `j` of the sprite row `bits`, drawn into `row` from column `x`
/// on, is set and lands on a pixel of `pixels` that is off.
pub open spec fn dark_under(pixels: Seq<bool>, x: u8, row: int, bits: u8, j: int) -> bool {
    sprite_bit(bits, j) && !pixels[pixel_index((x + j) % 64, row)]
}

/// The screen `pixels` after one sprite row, `bits`, was drawn into `row`
/// from column `x` on.
pub open spec fn row_drawn(pixels: Seq<bool>, x: u8, row: int, bits: u8) -> Seq<bool> {
    Seq::new(
        pixels.len(),
        |k: int| pixels[k] ^ (row_of(k) == row && sprite_bit(bits, (column_of(k) - x) % 64)),
    )
}

/// Whether the sprite row `bits`, drawn into `row` from column `x` on, turns
/// off a pixel of `pixels`.
pub open spec fn row_collides(pixels: Seq<bool>, x: u8, row: int, bits: u8) -> bool {
    exists|j: int| 0 <= j < 8 && #[trigger] lit_under(pixels, x, row, bits, j)
}

/// The 64×32 monochrome screen, row by row from the top left.
#[derive(Debug)]
pub struct Screen {
    screen: [bool; 2048],
}

impl View for Screen {
    type V = Seq<bool>;

    closed spec fn view(&self) -> Seq<bool> {
        self.screen@
    }
}

impl Screen {
    /// A screen with every pixel off.
    pub fn new() -> (screen: Self)
        ensures
            screen@ == blank(),
    {
        Screen { screen: [false;2048] }
    }

    /// The screen always holds 2048 pixels.
    pub proof fn lemma_size(&self)
        ensures
            self@.len() == 2048,
    {
    }

    /// Turns every pixel off.
    pub fn clear(&mut self)
        ensures
            final(self)@ == blank(),
    {
        self.screen = [false;2048];
    }

    /// Draws `sprite` at (`x`, `y`), one byte for each row of eight pixels,
    /// the highest bit leftmost. Each set bit inverts the pixel it lands on;
    /// what passes an edge of the screen comes back in at the opposite edge.
    /// Returns whether a pixel that was on has been turned off.
    pub fn draw(&mut self, x: u8, y: u8, sprite: &[u8]) -> (collided: bool)
        ensures
            final(self)@ == drawn(old(self)@, x, y, sprite@),
            collided == collides(old(self)@, x, y, sprite@),
    {
        let mut collided: bool = false;
        let mut index: usize = 0;
        let mut row: usize = y as usize % ROWS;
        proof {
            lemma_nothing_drawn(self@, x, y, sprite@);
        }
        while index < sprite.len()
            invariant
                index <= sprite.len(),
                row == (y + index) % 32,
                self@ == drawn(old(self)@, x, y, sprite@.take(index as int)),
                collided == collides(old(self)@, x, y, sprite@.take(index as int)),
            decreases sprite.len() - index,
        {
            proof {
                lemma_drawn_row_by_row(old(self)@, x, y, sprite@, index as int);
            }
            let hit: bool = self.draw_row(x, row, sprite[index]);
            collided = collided || hit;
            index += 1;
            row = if row + 1 < ROWS {
                row + 1
            } else {
                0
            };
        }
        assert(sprite@.take(index as int) == sprite@);
        collided
    }

    /// Draws the eight pixels `bits` into `row`, from column `x` on.
    fn draw_row(&mut self, x: u8, row: usize, bits: u8) -> (hit: bool)
        requires
            row < 32,
        ensures
            final(self)@ == row_drawn(old(self)@, x, row as int, bits),
            hit == row_collides(old(self)@, x, row as int, bits),
    {
        let mut hit: bool = false;
        let mut column: u8 = 0;
        while column < 8
            invariant
                column <= 8,
                row < 32,
                self@.len() == 2048,
                forall|k: int|
                    0 <= k < 2048 ==> #[trigger] self@[k] == (old(self)@[k] ^ (row_of(k) == row
                        && (column_of(k) - x) % 64 < column && sprite_bit(
                        bits,
                        (column_of(k) - x) % 64,
                    ))),
                hit == exists|j: int|
                    0 <= j < column && #[trigger] lit_under(old(self)@, x, row as int, bits, j),
            decreases 8 - column,
        {
            if bits & (0x80u8 >> column) != 0 {
                let place: usize = row * COLUMNS + (x as usize + column as usize) % COLUMNS;
                if self.screen[place] {
                    hit = true;
                    assert(lit_under(old(self)@, x, row as int, bits, column as int));
                }
                self.screen[place] = !self.screen[place];
            }
            column += 1;
        }
        hit
    }

    /// Whether the pixel in `column` of `row` is on; both wrap around the
    /// edges of the screen.
    pub fn pixel(&self, column: u8, row: u8) -> (lit: bool)
        ensures
            lit == self@[pixel_index(column as int % 64, row as int % 32)],
    {
        self.screen[(row as usize % ROWS) * COLUMNS + column as usize % COLUMNS]
    }

    /// A copy of all pixels, row by row.
    pub fn snapshot(&self) -> (pixels: [bool; 2048])
        ensures
            pixels@ == self@,
    {
        self.screen
    }
}

/// A sprite of which no row has been drawn yet has changed nothing and has
/// hit nothing.
proof fn lemma_nothing_drawn(pixels: Seq<bool>, x: u8, y: u8, sprite: Seq<u8>)
    ensures
        drawn(pixels, x, y, sprite.take(0)) == pixels,
        !collides(pixels, x, y, sprite.take(0)),
{
}

/// To draw the rows of a sprite up to row `index` is to draw the rows above
/// it and then that row; and they collide if the rows above do or that row
/// then does.
proof fn lemma_drawn_row_by_row(pixels: Seq<bool>, x: u8, y: u8, sprite: Seq<u8>, index: int)
    requires
        0 <= index < sprite.len(),
    ensures
        drawn(pixels, x, y, sprite.take(index + 1)) == row_drawn(
            drawn(pixels, x, y, sprite.take(index)),
            x,
            (y + index) % 32,
            sprite[index],
        ),
        collides(pixels, x, y, sprite.take(index + 1)) == (collides(
            pixels,
            x,
            y,
            sprite.take(index),
        ) || row_collides(
            drawn(pixels, x, y, sprite.take(index)),
            x,
            (y + index) % 32,
            sprite[index],
        )),
{
    let above = sprite.take(index);
    let upto = sprite.take(index + 1);
    let before = drawn(pixels, x, y, above);
    let row = (y + index) % 32;
    assert(upto.drop_last() =~= above);
    assert forall|i: int, j: int| 0 <= i < index implies #[trigger] lands_on_lit(
        pixels,
        x,
        y,
        upto,
        i,
        j,
    ) == lands_on_lit(pixels, x, y, above, i, j) by {
        assert(upto.take(i) =~= above.take(i));
    }
    assert forall|j: int| #[trigger]
        lands_on_lit(pixels, x, y, upto, index, j) == lit_under(
            before,
            x,
            row,
            sprite[index],
            j,
        ) by {}
    if collides(pixels, x, y, above) {
        let (i, j) = choose|i: int, j: int|
            0 <= i < above.len() && #[trigger] lands_on_lit(pixels, x, y, above, i, j);
        assert(lands_on_lit(pixels, x, y, upto, i, j));
    }
    if row_collides(before, x, row, sprite[index]) {
        let j = choose|j: int| 0 <= j < 8 && #[trigger] lit_under(before, x, row, sprite[index], j);
        assert(lands_on_lit(pixels, x, y, upto, index, j));
    }
}

/// Drawing is its own inverse: a sprite drawn a second time at the same
/// place puts every pixel back to what it was.
pub proof fn lemma_draw_twice_restores(pixels: Seq<bool>, x: u8, y: u8, sprite: Seq<u8>)
    ensures
        drawn(drawn(pixels, x, y, sprite), x, y, sprite) == pixels,
{
}

/// A sprite of at most 32 rows reaches each row of the screen at most once.
/// It flips the pixel in `column` of `row` exactly if the sprite's own pixel
/// that lies there is set: the one as far right of `x` and below `y`, around
/// the edges, as that pixel is.
pub proof fn lemma_flips_of_short_sprite(x: u8, y: u8, sprite: Seq<u8>, column: int, row: int)
    requires
        sprite.len() <= 32,
        0 <= row < 32,
    ensures
        flips(x, y, sprite, column, row) == ((row - y) % 32 < sprite.len() && sprite_bit(
            sprite[(row - y) % 32],
            (column - x) % 64,
        )),
    decreases sprite.len(),
{
    if sprite.len() > 0 {
        lemma_flips_of_short_sprite(x, y, sprite.drop_last(), column, row);
    }
}

/// A sprite of at most 32 rows collides exactly if one of its set pixels
/// lands on a pixel that was on before the drawing began.
pub proof fn lemma_collision_of_short_sprite(pixels: Seq<bool>, x: u8, y: u8, sprite: Seq<u8>)
    requires
        sprite.len() <= 32,
        pixels.len() == 2048,
    ensures
        collides(pixels, x, y, sprite) == exists|i: int, j: int|
            0 <= i < sprite.len() && #[trigger] lit_under(pixels, x, (y + i) % 32, sprite[i], j),
{
    assert forall|i: int, j: int| 0 <= i < sprite.len() implies #[trigger] lands_on_lit(
        pixels,
        x,
        y,
        sprite,
        i,
        j,
    ) == lit_under(pixels, x, (y + i) % 32, sprite[i], j) by {
        let column = (x + j) % 64;
        let row = (y + i) % 32;
        lemma_flips_of_short_sprite(x, y, sprite.take(i), column, row);
    }
    if exists|i: int, j: int|
        0 <= i < sprite.len() && #[trigger] lit_under(pixels, x, (y + i) % 32, sprite[i], j) {
        let (i, j) = choose|i: int, j: int|
            0 <= i < sprite.len() && #[trigger] lit_under(pixels, x, (y + i) % 32, sprite[i], j);
        assert(lands_on_lit(pixels, x, y, sprite, i, j));
    }
}

/// A set pixel of a sprite of at most 32 rows inverts the pixel it lands on.
proof fn lemma_set_bit_inverts(pixels: Seq<bool>, x: u8, y: u8, sprite: Seq<u8>, i: int, j: int)
    requires
        sprite.len() <= 32,
        pixels.len() == 2048,
        0 <= i < sprite.len(),
        sprite_bit(sprite[i], j),
    ensures
        drawn(pixels, x, y, sprite)[pixel_index((x + j) % 64, (y + i) % 32)] == !pixels[pixel_index(
            (x + j) % 64,
            (y + i) % 32,
        )],
{
    let column = (x + j) % 64;
    let row = (y + i) % 32;
    lemma_flips_of_short_sprite(x, y, sprite, column, row);
}

/// A sprite of at most 32 rows that is drawn a second time at the same place
/// collides exactly if the first drawing turned a pixel on: if one of its
/// set pixels landed on a pixel that was off.
pub proof fn lemma_second_draw_collides(pixels: Seq<bool>, x: u8, y: u8, sprite: Seq<u8>)
    requires
        sprite.len() <= 32,
        pixels.len() == 2048,
    ensures
        collides(drawn(pixels, x, y, sprite), x, y, sprite) == exists|i: int, j: int|
            0 <= i < sprite.len() && #[trigger] dark_under(pixels, x, (y + i) % 32, sprite[i], j),
{
    let once = drawn(pixels, x, y, sprite);
    lemma_collision_of_short_sprite(once, x, y, sprite);
    if collides(once, x, y, sprite) {
        let (i, j) = choose|i: int, j: int|
            0 <= i < sprite.len() && #[trigger] lit_under(once, x, (y + i) % 32, sprite[i], j);
        lemma_set_bit_inverts(pixels, x, y, sprite, i, j);
        assert(dark_under(pixels, x, (y + i) % 32, sprite[i], j));
    }
    if exists|i: int, j: int|
        0 <= i < sprite.len() && #[trigger] dark_under(pixels, x, (y + i) % 32, sprite[i], j) {
        let (i, j) = choose|i: int, j: int|
            0 <= i < sprite.len() && #[trigger] dark_under(pixels, x, (y + i) % 32, sprite[i], j);
        lemma_set_bit_inverts(pixels, x, y, sprite, i, j);
        assert(lit_under(once, x, (y + i) % 32, sprite[i], j));
    }
}

} // verus!
