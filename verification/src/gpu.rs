//! The display: a 64x32 monochrome frame and the XOR sprite rasterizer.

pub mod dump;

use vstd::prelude::*;

verus! {

pub const SCREEN_WIDTH: usize = 64;

pub const SCREEN_HEIGHT: usize = 32;

pub const SCREEN_SIZE: usize = 2048;

/// Row-major index of pixel `(x, y)`, both coordinates wrapped onto the
/// screen.
pub open spec fn pixel_index(x: int, y: int) -> int {
    (y % 32) * 64 + x % 64
}

/// The frame with every pixel off.
pub open spec fn blank() -> Seq<bool> {
    Seq::new(2048, |p: int| false)
}

/// The frame after `value` is XOR-ed into pixel `(x, y)`.
pub open spec fn xor_pixel(screen: Seq<bool>, x: int, y: int, value: bool) -> Seq<bool> {
    screen.update(pixel_index(x, y), screen[pixel_index(x, y)] != value)
}

/// Whether column `col` of a sprite row is on. Column 0 is the leftmost
/// pixel and is held in the most significant bit.
pub open spec fn sprite_bit(row: u8, col: int) -> bool {
    0 <= col < 8 && row & (0x80u8 >> (col as u8)) != 0
}

/// Whether a sprite row whose leftmost pixel is drawn at `(x, y)` lights
/// pixel `p`: the pixel lies on the row's line, at most seven columns to the
/// right of `x` (wrapping round the edge), and the row's bit for that column
/// is on.
pub open spec fn lights(row: u8, x: int, y: int, p: int) -> bool {
    &&& p / 64 == y % 32
    &&& sprite_bit(row, (p % 64 - x) % 64)
}

/// Whether row `r` of `sprite`, drawn at `(x, y)`, lights pixel `p`. Row `r`
/// is drawn `r` lines below `y`.
pub open spec fn row_lights(sprite: Seq<u8>, x: int, y: int, r: int, p: int) -> bool {
    lights(sprite[r], x, y + r, p)
}

/// Whether the first `n` rows of `sprite`, drawn at `(x, y)`, flip pixel `p`:
/// an odd number of them light it.
pub open spec fn flips(sprite: Seq<u8>, x: int, y: int, n: int, p: int) -> bool
    decreases n,
{
    if n <= 0 {
        false
    } else {
        flips(sprite, x, y, n - 1, p) != row_lights(sprite, x, y, n - 1, p)
    }
}

/// The frame after the first `n` rows of `sprite` were drawn at `(x, y)`.
pub open spec fn drawn(screen: Seq<bool>, sprite: Seq<u8>, x: int, y: int, n: int) -> Seq<bool> {
    Seq::new(screen.len(), |p: int| screen[p] != flips(sprite, x, y, n, p))
}

/// Whether drawing row `r` of `sprite` turns a pixel off: the row lights a
/// pixel that is on once the rows above it are drawn.
pub open spec fn row_erases(screen: Seq<bool>, sprite: Seq<u8>, x: int, y: int, r: int) -> bool {
    exists|p: int|
        0 <= p < screen.len() && row_lights(sprite, x, y, r, p) && #[trigger] drawn(
            screen,
            sprite,
            x,
            y,
            r,
        )[p]
}

/// Whether drawing `sprite` at `(x, y)` turns any pixel off.
pub open spec fn erases(screen: Seq<bool>, sprite: Seq<u8>, x: int, y: int) -> bool {
    exists|r: int| 0 <= r < sprite.len() && #[trigger] row_erases(screen, sprite, x, y, r)
}


/// The sprite row `row` with only its leftmost `k` columns kept.
pub open spec fn keep_left(row: u8, k: int) -> u8 {
    if k >= 8 {
        row
    } else if k <= 0 {
        0
    } else {
        row & (0xFFu8 << ((8 - k) as u8))
    }
}

/// The part of `sprite` that lies on the screen when its top left corner is
/// drawn at `(x, y)` and nothing wraps: the rows down to the bottom edge,
/// and of each row the columns up to the right edge.
pub open spec fn clipped(sprite: Seq<u8>, x: int, y: int) -> Seq<u8> {
    Seq::new(
        if sprite.len() < 32 - y % 32 {
            sprite.len()
        } else {
            (32 - y % 32) as nat
        },
        |r: int| keep_left(sprite[r], 64 - x % 64),
    )
}

/// Whether one of the first `k` columns of a sprite row, drawn at `(x, y)`,
/// lights pixel `p`.
spec fn lights_within(row: u8, x: int, y: int, k: int, p: int) -> bool {
    lights(row, x, y, p) && (p % 64 - x) % 64 < k
}

/// The frame after the first `k` columns of a sprite row were drawn at
/// `(x, y)` on `before`.
spec fn partly_drawn(before: Seq<bool>, row: u8, x: int, y: int, k: int) -> Seq<bool> {
    Seq::new(before.len(), |p: int| before[p] != lights_within(row, x, y, k, p))
}

/// Whether one of the first `k` columns of a sprite row, drawn at `(x, y)`,
/// falls on a pixel that is on in `before`.
spec fn partly_erases(before: Seq<bool>, row: u8, x: int, y: int, k: int) -> bool {
    exists|p: int| 0 <= p < before.len() && lights_within(row, x, y, k, p) && #[trigger] before[p]
}

/// Drawing column `k` of a row extends what the first `k` columns did.
proof fn lemma_draw_column(before: Seq<bool>, row: u8, x: int, y: int, k: int)
    requires
        before.len() == 2048,
        0 <= k < 8,
    ensures
        partly_drawn(before, row, x, y, k + 1) == xor_pixel(
            partly_drawn(before, row, x, y, k),
            x + k,
            y,
            sprite_bit(row, k),
        ),
        partly_drawn(before, row, x, y, k)[pixel_index(x + k, y)] == before[pixel_index(x + k, y)],
        partly_erases(before, row, x, y, k + 1) == (partly_erases(before, row, x, y, k) || (
        sprite_bit(row, k) && before[pixel_index(x + k, y)])),
{
    let idx = pixel_index(x + k, y);
    assert(0 <= idx < 2048);
    assert(idx / 64 == y % 32);
    assert((idx % 64 - x) % 64 == k);
    assert forall|p: int| 0 <= p < 2048 && p != idx implies lights_within(row, x, y, k + 1, p)
        == #[trigger] lights_within(row, x, y, k, p) by {
        if p / 64 == y % 32 && (p % 64 - x) % 64 == k {
            assert(p == idx);
        }
    }
    assert(lights_within(row, x, y, k + 1, idx) == sprite_bit(row, k));
    assert(!lights_within(row, x, y, k, idx));
    assert(partly_drawn(before, row, x, y, k + 1) =~= xor_pixel(
        partly_drawn(before, row, x, y, k),
        x + k,
        y,
        sprite_bit(row, k),
    ));
    if partly_erases(before, row, x, y, k + 1) {
        let p = choose|p: int|
            0 <= p < before.len() && lights_within(row, x, y, k + 1, p) && #[trigger] before[p];
        if p != idx {
            assert(lights_within(row, x, y, k, p) && before[p]);
        }
    }
    if partly_erases(before, row, x, y, k) {
        let p = choose|p: int|
            0 <= p < before.len() && lights_within(row, x, y, k, p) && #[trigger] before[p];
        assert(lights_within(row, x, y, k + 1, p) && before[p]);
    }
    if sprite_bit(row, k) && before[idx] {
        assert(lights_within(row, x, y, k + 1, idx) && before[idx]);
    }
}

/// Drawing all eight columns of row `r` turns the frame after `r` rows into
/// the frame after `r + 1` rows, and erases a pixel exactly when the row
/// does.
proof fn lemma_draw_row(screen: Seq<bool>, sprite: Seq<u8>, x: int, y: int, r: int)
    requires
        screen.len() == 2048,
        0 <= r < sprite.len(),
    ensures
        partly_drawn(drawn(screen, sprite, x, y, r), sprite[r], x, y + r, 0) == drawn(
            screen,
            sprite,
            x,
            y,
            r,
        ),
        !partly_erases(drawn(screen, sprite, x, y, r), sprite[r], x, y + r, 0),
        partly_drawn(drawn(screen, sprite, x, y, r), sprite[r], x, y + r, 8) == drawn(
            screen,
            sprite,
            x,
            y,
            r + 1,
        ),
        partly_erases(drawn(screen, sprite, x, y, r), sprite[r], x, y + r, 8) == row_erases(
            screen,
            sprite,
            x,
            y,
            r,
        ),
{
    let before = drawn(screen, sprite, x, y, r);
    assert(partly_drawn(before, sprite[r], x, y + r, 0) =~= before);
    let line = y + r;
    assert forall|p: int| 0 <= p < 2048 implies lights_within(sprite[r], x, line, 8, p)
        == #[trigger] lights(sprite[r], x, line, p) by {}
    assert(partly_drawn(before, sprite[r], x, y + r, 8) =~= drawn(screen, sprite, x, y, r + 1));
    if partly_erases(before, sprite[r], x, y + r, 8) {
        let p = choose|p: int|
            0 <= p < before.len() && lights_within(sprite[r], x, y + r, 8, p) && #[trigger] before[p];
        assert(lights(sprite[r], x, y + r, p) && drawn(screen, sprite, x, y, r)[p]);
    }
    if row_erases(screen, sprite, x, y, r) {
        let p = choose|p: int|
            0 <= p < screen.len() && row_lights(sprite, x, y, r, p) && #[trigger] drawn(
                screen,
                sprite,
                x,
                y,
                r,
            )[p];
        assert(lights_within(sprite[r], x, y + r, 8, p) && before[p]);
    }
}

/// Whether drawing one of the first `n` rows of `sprite` at `(x, y)` turns a
/// pixel off.
spec fn erases_within(screen: Seq<bool>, sprite: Seq<u8>, x: int, y: int, n: int) -> bool {
    exists|r: int| 0 <= r < n && #[trigger] row_erases(screen, sprite, x, y, r)
}

/// The 64x32 frame, row-major: the pixel at `(x, y)` has index `y * 64 + x`.
pub struct Gpu {
    screen: [bool; SCREEN_SIZE],
}

impl View for Gpu {
    type V = Seq<bool>;

    closed spec fn view(&self) -> Seq<bool> {
        self.screen@
    }
}

impl Gpu {
    /// Every frame has 2048 pixels.
    pub proof fn lemma_size(&self)
        ensures
            self@.len() == 2048,
    {
    }

    /// A frame with every pixel off.
    pub fn new() -> (gpu: Self)
        ensures
            gpu@ == blank(),
    {
        Self { screen: [false; SCREEN_SIZE] }
    }

    /// The 2048 pixels in row-major order.
    pub fn screen(&self) -> (pixels: &[bool])
        ensures
            pixels@ == self@,
    {
        &self.screen
    }

    /// Turns every pixel off.
    pub fn clear(&mut self)
        ensures
            final(self)@ == blank(),
    {
        self.screen = [false; SCREEN_SIZE];
    }

    /// XORs `value` into the pixel at `(x, y)`, both coordinates wrapped onto
    /// the screen, and says whether that turned the pixel off.
    pub fn set(&mut self, x: usize, y: usize, value: bool) -> (hit: bool)
        ensures
            final(self)@ == xor_pixel(old(self)@, x as int, y as int, value),
            hit == (old(self)@[pixel_index(x as int, y as int)] && value),
    {
        let adj_x = x % SCREEN_WIDTH;
        let adj_y = y % SCREEN_HEIGHT;
        let idx = adj_y * SCREEN_WIDTH + adj_x;
        let current = self.screen[idx];
        let hit = current && value;
        self.screen[idx] = current != value;
        hit
    }

    /// XORs `sprite` into the frame with its top left corner at `(x, y)`: one
    /// row of eight pixels for each byte, the most significant bit leftmost,
    /// every pixel wrapped onto the screen. Says whether that turned any
    /// pixel off.
    pub fn draw_sprite(&mut self, x: usize, y: usize, sprite: &[u8]) -> (hit: bool)
        ensures
            final(self)@ == drawn(old(self)@, sprite@, x as int, y as int, sprite@.len() as int),
            hit == erases(old(self)@, sprite@, x as int, y as int),
    {
        let left = x % SCREEN_WIDTH;
        let top = y % SCREEN_HEIGHT;
        let mut hit = false;
        let mut row: usize = 0;
        while row < sprite.len()
            invariant
                row <= sprite.len(),
                left == x % 64,
                top == y % 32,
                self@ == drawn(old(self)@, sprite@, x as int, y as int, row as int),
                hit == erases_within(old(self)@, sprite@, x as int, y as int, row as int),
            decreases sprite.len() - row,
        {
            let byte = sprite[row];
            let line = (top + row % SCREEN_HEIGHT) % SCREEN_HEIGHT;
            let ghost before = self@;
            let ghost above = hit;
            let mut row_hit = false;
            let mut col: u8 = 0;
            proof {
                lemma_draw_row(old(self)@, sprite@, x as int, y as int, row as int);
            }
            while col < 8
                invariant
                    col <= 8,
                    row < sprite.len(),
                    byte == sprite@[row as int],
                    left == x % 64,
                    line == (y + row) % 32,
                    before.len() == 2048,
                    self@ == partly_drawn(before, byte, x as int, y + row, col as int),
                    row_hit == partly_erases(before, byte, x as int, y + row, col as int),
                decreases 8 - col,
            {
                proof {
                    lemma_draw_column(before, byte, x as int, y + row, col as int);
                    assert(pixel_index(left + col, line as int) == pixel_index(x + col, y + row));
                }
                let value = byte & (0x80u8 >> col) != 0;
                let erased = self.set(left + col as usize, line, value);
                row_hit = row_hit || erased;
                col += 1;
            }
            proof {
                let r = row as int;
                if row_hit {
                    assert(row_erases(old(self)@, sprite@, x as int, y as int, r));
                }
                if erases_within(old(self)@, sprite@, x as int, y as int, r + 1) && !above {
                    let r2 = choose|r2: int|
                        0 <= r2 < r + 1 && #[trigger] row_erases(
                            old(self)@,
                            sprite@,
                            x as int,
                            y as int,
                            r2,
                        );
                    assert(r2 == r);
                }
            }
            hit = hit || row_hit;
            row += 1;
        }
        hit
    }

    /// XORs into the frame the part of `sprite` that lies on the screen when
    /// its top left corner is at `(x, y)`, both coordinates wrapped onto the
    /// screen: what would lie beyond the right or the bottom edge is left
    /// out. Says whether that turned any pixel off.
    pub fn draw_sprite_clipped(&mut self, x: usize, y: usize, sprite: &[u8]) -> (hit: bool)
        ensures
            final(self)@ == drawn(
                old(self)@,
                clipped(sprite@, x as int, y as int),
                x as int,
                y as int,
                clipped(sprite@, x as int, y as int).len() as int,
            ),
            hit == erases(old(self)@, clipped(sprite@, x as int, y as int), x as int, y as int),
    {
        let shown = clip_sprite(x, y, sprite);
        self.draw_sprite(x, y, shown.as_slice())
    }
}

/// The part of `sprite` that lies on the screen when its top left corner is
/// drawn at `(x, y)` and nothing wraps.
fn clip_sprite(x: usize, y: usize, sprite: &[u8]) -> (shown: Vec<u8>)
    ensures
        shown@ == clipped(sprite@, x as int, y as int),
{
    let columns = SCREEN_WIDTH - x % SCREEN_WIDTH;
    let lines = SCREEN_HEIGHT - y % SCREEN_HEIGHT;
    let rows = if sprite.len() < lines {
        sprite.len()
    } else {
        lines
    };
    let mut shown: Vec<u8> = Vec::new();
    let mut r: usize = 0;
    while r < rows
        invariant
            r <= rows <= sprite@.len(),
            1 <= columns <= 64,
            columns == 64 - x % 64,
            shown@ == Seq::new(r as nat, |i: int| keep_left(sprite@[i], columns as int)),
        decreases rows - r,
    {
        let row = sprite[r];
        let kept = if columns >= 8 {
            row
        } else {
            row & (0xFFu8 << (8 - columns))
        };
        shown.push(kept);
        r += 1;
    }
    shown
}

/// Whether a row of `sprite` other than row `r`, drawn at `(x, y)`, lights
/// pixel `p`. Two rows can fall on one line only in a sprite of more than 32
/// rows.
pub open spec fn relit(sprite: Seq<u8>, x: int, y: int, r: int, p: int) -> bool {
    exists|other: int|
        0 <= other < sprite.len() && other != r && #[trigger] row_lights(sprite, x, y, other, p)
}

/// Whether row `r` of `sprite`, drawn at `(x, y)`, lights a pixel `p` of
/// `screen` that is off or that another row lights too.
pub open spec fn lights_off_or_relit(
    screen: Seq<bool>,
    sprite: Seq<u8>,
    x: int,
    y: int,
    r: int,
    p: int,
) -> bool {
    &&& 0 <= r < sprite.len()
    &&& 0 <= p < screen.len()
    &&& row_lights(sprite, x, y, r, p)
    &&& (!screen[p] || relit(sprite, x, y, r, p))
}

/// Where row `r` is the only one of the first `n` rows that may light pixel
/// `p`, those rows flip `p` exactly when row `r` is among them and lights it.
proof fn lemma_flips_sole_row(sprite: Seq<u8>, x: int, y: int, r: int, n: int, p: int)
    requires
        0 <= r,
        0 <= n,
        forall|j: int| 0 <= j < n && j != r ==> !#[trigger] row_lights(sprite, x, y, j, p),
    ensures
        flips(sprite, x, y, n, p) == (r < n && row_lights(sprite, x, y, r, p)),
    decreases n,
{
    if n > 0 {
        lemma_flips_sole_row(sprite, x, y, r, n - 1, p);
    }
}

/// Where no row from `first` up to `n`, drawn on `screen`, erases pixel `p`,
/// and row `first` lights it, `p` is on once the first `n` rows are drawn.
proof fn lemma_lit_stays_on(
    screen: Seq<bool>,
    sprite: Seq<u8>,
    x: int,
    y: int,
    p: int,
    first: int,
    n: int,
)
    requires
        0 <= first < n,
        0 <= p < screen.len(),
        row_lights(sprite, x, y, first, p),
        forall|j: int|
            first <= j < n && #[trigger] row_lights(sprite, x, y, j, p) ==> !drawn(
                screen,
                sprite,
                x,
                y,
                j,
            )[p],
    ensures
        drawn(screen, sprite, x, y, n)[p],
    decreases n,
{
    if n == first + 1 {
        assert(!drawn(screen, sprite, x, y, first)[p]);
    } else {
        lemma_lit_stays_on(screen, sprite, x, y, p, first, n - 1);
        assert(!row_lights(sprite, x, y, n - 1, p));
    }
}

/// Drawing is its own inverse: a sprite drawn twice at the same place leaves
/// the frame as it was. The second drawing erases a pixel exactly when the
/// sprite lights a pixel that was off before the first drawing, or lights
/// one pixel with two of its rows.
pub proof fn lemma_draw_twice(screen: Seq<bool>, sprite: Seq<u8>, x: int, y: int)
    ensures
        drawn(drawn(screen, sprite, x, y, sprite.len() as int), sprite, x, y, sprite.len() as int)
            == screen,
        erases(drawn(screen, sprite, x, y, sprite.len() as int), sprite, x, y) <==> exists|
            r: int,
            p: int,
        | #[trigger] lights_off_or_relit(screen, sprite, x, y, r, p),
{
    let n = sprite.len() as int;
    let once = drawn(screen, sprite, x, y, n);
    assert(drawn(once, sprite, x, y, n) =~= screen);
    if erases(once, sprite, x, y) {
        let r = choose|r: int| 0 <= r < sprite.len() && #[trigger] row_erases(once, sprite, x, y, r);
        let p = choose|p: int|
            0 <= p < once.len() && row_lights(sprite, x, y, r, p) && #[trigger] drawn(
                once,
                sprite,
                x,
                y,
                r,
            )[p];
        if screen[p] && !relit(sprite, x, y, r, p) {
            lemma_flips_sole_row(sprite, x, y, r, n, p);
            lemma_flips_sole_row(sprite, x, y, r, r, p);
            assert(false);
        }
        assert(lights_off_or_relit(screen, sprite, x, y, r, p));
    }
    if exists|r: int, p: int| #[trigger] lights_off_or_relit(screen, sprite, x, y, r, p) {
        let (r, p) = choose|r: int, p: int| #[trigger]
            lights_off_or_relit(screen, sprite, x, y, r, p);
        if !erases(once, sprite, x, y) {
            assert forall|j: int| 0 <= j < n && #[trigger] row_lights(sprite, x, y, j, p) implies !drawn(
                once,
                sprite,
                x,
                y,
                j,
            )[p] by {
                assert(!row_erases(once, sprite, x, y, j));
            }
            if !screen[p] {
                lemma_lit_stays_on(once, sprite, x, y, p, r, n);
            } else {
                let other = choose|other: int|
                    0 <= other < sprite.len() && other != r && #[trigger] row_lights(
                        sprite,
                        x,
                        y,
                        other,
                        p,
                    );
                if r < other {
                    lemma_lit_stays_on(once, sprite, x, y, p, r, other);
                } else {
                    lemma_lit_stays_on(once, sprite, x, y, p, other, r);
                }
            }
            assert(false);
        }
    }
}

/// A sprite of at most 32 rows lights no pixel with two of its rows.
pub proof fn lemma_short_sprite_never_relights(sprite: Seq<u8>, x: int, y: int, r: int, p: int)
    requires
        sprite.len() <= 32,
        0 <= r < sprite.len(),
        row_lights(sprite, x, y, r, p),
    ensures
        !relit(sprite, x, y, r, p),
{
    if relit(sprite, x, y, r, p) {
        let other = choose|other: int|
            0 <= other < sprite.len() && other != r && #[trigger] row_lights(sprite, x, y, other, p);
        assert((y + r) % 32 == (y + other) % 32);
    }
}

/// Keeping the leftmost `k` columns of a row keeps those bits and clears the
/// others.
pub proof fn lemma_keep_left(row: u8, k: int, col: int)
    ensures
        sprite_bit(keep_left(row, k), col) == (sprite_bit(row, col) && col < k),
{
    if 0 < k < 8 && 0 <= col < 8 {
        let shift = (8 - k) as u8;
        let c = col as u8;
        assert(((row & (0xFFu8 << shift)) & (0x80u8 >> c) != 0) == (row & (0x80u8 >> c) != 0 && c
            + shift < 8)) by (bit_vector)
            requires
                0 < shift < 8,
                c < 8,
        ;
    } else if k <= 0 && 0 <= col < 8 {
        let c = col as u8;
        assert(0u8 & (0x80u8 >> c) == 0) by (bit_vector);
    }
}

/// A sprite that is clipped at `(x, y)` lights no pixel beyond the right or
/// the bottom edge: the pixels it lights lie on or to the right of column
/// `x`, and on or below line `y`.
pub proof fn lemma_clipped_stays_on_screen(sprite: Seq<u8>, x: int, y: int, r: int, p: int)
    requires
        0 <= r < clipped(sprite, x, y).len(),
        0 <= p < 2048,
        row_lights(clipped(sprite, x, y), x, y, r, p),
    ensures
        p / 64 == y % 32 + r,
        0 <= p % 64 - x % 64 < 8,
        sprite_bit(sprite[r], p % 64 - x % 64),
{
    let col = (p % 64 - x) % 64;
    lemma_keep_left(sprite[r], 64 - x % 64, col);
}

} // verus!
