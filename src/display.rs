//! The 64x32 monochrome display: a grid of logical on/off pixels changed
//! only by XOR sprite blits, and a parallel grid of phosphor brightness used
//! only to compute the rendered colour.

use vstd::prelude::*;

use crate::constants::{DISPLAY_HEIGHT, DISPLAY_PIXELS, DISPLAY_WIDTH, SPRITE_WIDTH};
use crate::settings::DisplaySettings;

verus! {

/// Bytes per rendered RGBA pixel.
pub const RGBA_PIXEL_SIZE: usize = 4;

/// Bytes in a rendered frame.
pub const FRAME_BYTES: usize = 8192;

/// What the display holds. Pixel `(x, y)` is at index `y * 64 + x`.
pub struct DisplayModel {
    pub on: Seq<bool>,
    pub phosphor: Seq<u8>,
    pub settings: DisplaySettings,
}

/// The index of pixel `(x, y)`.
pub open spec fn pixel_index(x: int, y: int) -> int {
    y * DISPLAY_WIDTH + x
}

/// The sprite column that covers pixel `p` when the sprite's left edge is at
/// column `x` (counted with wrap-around).
#[verifier::opaque]
pub open spec fn sprite_col(x: u8, p: int) -> int {
    (p % (DISPLAY_WIDTH as int) - x) % (DISPLAY_WIDTH as int)
}

/// The sprite row that covers pixel `p` when the sprite's top edge is at
/// row `y` (counted with wrap-around).
#[verifier::opaque]
pub open spec fn sprite_row(y: u8, p: int) -> int {
    (p / (DISPLAY_WIDTH as int) - y) % (DISPLAY_HEIGHT as int)
}

/// Bit `c` of a sprite row, counted from the most significant bit.
pub open spec fn sprite_bit(row: u8, c: int) -> bool {
    (row >> ((7 - c) as u8)) & 1u8 == 1u8
}

/// Whether a set sprite bit lands on pixel `p` when `rows` is drawn at
/// `(x, y)`. Coordinates wrap around both edges; a sprite of at most 32 rows
/// covers each pixel at most once.
pub open spec fn sprite_hits(x: u8, y: u8, rows: Seq<u8>, p: int) -> bool {
    let c = sprite_col(x, p);
    let r = sprite_row(y, p);
    c < SPRITE_WIDTH && r < rows.len() && sprite_bit(rows[r], c)
}

/// Whether drawing `rows` at `(x, y)` turns a lit pixel off.
pub open spec fn sprite_collides(d: DisplayModel, x: u8, y: u8, rows: Seq<u8>) -> bool {
    exists|p: int| 0 <= p < DISPLAY_PIXELS && #[trigger] sprite_hits(x, y, rows, p) && d.on[p]
}

/// The display after `rows` is XOR-drawn at `(x, y)`: each hit pixel flips,
/// and one that is lit by the flip gets the full phosphor value.
pub open spec fn drawn(d: DisplayModel, x: u8, y: u8, rows: Seq<u8>) -> DisplayModel {
    DisplayModel {
        on: Seq::new(DISPLAY_PIXELS as nat, |p: int| d.on[p] != sprite_hits(x, y, rows, p)),
        phosphor: Seq::new(
            DISPLAY_PIXELS as nat,
            |p: int|
                if sprite_hits(x, y, rows, p) && !d.on[p] {
                    d.settings.max_phosphor_value
                } else {
                    d.phosphor[p]
                },
        ),
        settings: d.settings,
    }
}

/// One render step of a pixel's phosphor: an unlit pixel fades by the decay
/// rate, saturating at zero; a lit one keeps its value.
pub open spec fn decayed(on: bool, phosphor: u8, rate: u8) -> u8 {
    if !on && phosphor > 0 {
        if phosphor > rate {
            (phosphor - rate) as u8
        } else {
            0
        }
    } else {
        phosphor
    }
}

/// The phosphor grid after one render.
pub open spec fn decayed_all(d: DisplayModel) -> Seq<u8> {
    Seq::new(
        DISPLAY_PIXELS as nat,
        |p: int| decayed(d.on[p], d.phosphor[p], d.settings.phosphor_decay_rate),
    )
}

/// Whether bytes `4p..4p+4` of `frame` hold the colour of `brightness`
/// under the divisors of `s`: red, green and blue are the brightness divided
/// by their divisors, alpha is opaque.
pub open spec fn pixel_rendered(frame: Seq<u8>, p: int, brightness: u8, s: DisplaySettings) -> bool {
    &&& frame[4 * p] == brightness / s.color.red_divisor
    &&& frame[4 * p + 1] == brightness / s.color.green_divisor
    &&& frame[4 * p + 2] == brightness / s.color.blue_divisor
    &&& frame[4 * p + 3] == 255
}

/// Whether `frame` holds the colour of every pixel of `phosphor`, row by
/// row; bytes past the frame are those of `rest`.
pub open spec fn is_rendered(frame: Seq<u8>, phosphor: Seq<u8>, s: DisplaySettings, rest: Seq<u8>) -> bool {
    &&& frame.len() == rest.len()
    &&& forall|p: int| 0 <= p < DISPLAY_PIXELS ==> #[trigger] pixel_rendered(frame, p, phosphor[p], s)
    &&& forall|i: int| FRAME_BYTES <= i < frame.len() ==> #[trigger] frame[i] == rest[i]
}

pub struct Display {
    display: [bool; DISPLAY_PIXELS],
    phosphor: [u8; DISPLAY_PIXELS],
    settings: DisplaySettings,
}

impl View for Display {
    type V = DisplayModel;

    closed spec fn view(&self) -> DisplayModel {
        DisplayModel { on: self.display@, phosphor: self.phosphor@, settings: self.settings }
    }
}

/// The cell that covers a pixel has a non-negative row and column.
proof fn lemma_sprite_cell_bounds(x: u8, y: u8, p: int)
    ensures
        0 <= sprite_col(x, p) < DISPLAY_WIDTH,
        0 <= sprite_row(y, p) < DISPLAY_HEIGHT,
{
    reveal(sprite_col);
    reveal(sprite_row);
}

/// Which pixel sprite cell `(row, col)` lands on: the cell's column and row
/// are the only ones that cover it.
proof fn lemma_sprite_cell(x: u8, y: u8, row: int, col: int, p: int)
    requires
        0 <= row < DISPLAY_HEIGHT,
        0 <= col < DISPLAY_WIDTH,
        0 <= p < DISPLAY_PIXELS,
    ensures
        (sprite_col(x, p) == col && sprite_row(y, p) == row) <==> p == pixel_index(
            (x + col) % (DISPLAY_WIDTH as int),
            (y + row) % (DISPLAY_HEIGHT as int),
        ),
{
    reveal(sprite_col);
    reveal(sprite_row);
    let px = p % 64;
    let py = p / 64;
    assert(p == py * 64 + px);
    assert(0 <= py < 32);
}

/// The position of the sprite cell that covers pixel `p`, counted row by
/// row.
pub open spec fn sprite_cell(x: u8, y: u8, p: int) -> int {
    sprite_row(y, p) * (SPRITE_WIDTH as int) + sprite_col(x, p)
}

/// The pixel that sprite cell `k` (counted row by row) lands on.
pub open spec fn draw_target(x: u8, y: u8, k: int) -> int {
    pixel_index(
        (x + k % (SPRITE_WIDTH as int)) % (DISPLAY_WIDTH as int),
        (y + k / (SPRITE_WIDTH as int)) % (DISPLAY_HEIGHT as int),
    )
}

/// `d` with pixel `t` flipped; a pixel lit by the flip gets full phosphor.
pub open spec fn toggled(d: DisplayModel, t: int) -> DisplayModel {
    DisplayModel {
        on: d.on.update(t, !d.on[t]),
        phosphor: if !d.on[t] {
            d.phosphor.update(t, d.settings.max_phosphor_value)
        } else {
            d.phosphor
        },
        settings: d.settings,
    }
}

/// Pixel `p` of `cur` is that of `d0` with the first `k` sprite cells drawn.
spec fn pixel_drawn(d0: DisplayModel, cur: DisplayModel, x: u8, y: u8, rows: Seq<u8>, k: int, p: int) -> bool {
    let hit = sprite_hits(x, y, rows, p) && sprite_cell(x, y, p) < k;
    &&& cur.on[p] == (d0.on[p] != hit)
    &&& cur.phosphor[p] == if hit && !d0.on[p] {
        d0.settings.max_phosphor_value
    } else {
        d0.phosphor[p]
    }
}

/// `cur` is `d0` with the first `k` sprite cells drawn.
#[verifier::opaque]
spec fn partly_drawn(d0: DisplayModel, cur: DisplayModel, x: u8, y: u8, rows: Seq<u8>, k: int) -> bool {
    &&& cur.on.len() == DISPLAY_PIXELS
    &&& cur.phosphor.len() == DISPLAY_PIXELS
    &&& cur.settings == d0.settings
    &&& forall|p: int| 0 <= p < DISPLAY_PIXELS ==> #[trigger] pixel_drawn(d0, cur, x, y, rows, k, p)
}

/// Whether one of the first `k` sprite cells lands on a lit pixel of `d0`.
spec fn collided_before(d0: DisplayModel, x: u8, y: u8, rows: Seq<u8>, k: int) -> bool {
    exists|p: int|
        0 <= p < DISPLAY_PIXELS && #[trigger] sprite_hits(x, y, rows, p) && sprite_cell(x, y, p)
            < k && d0.on[p]
}

proof fn lemma_draw_step(d0: DisplayModel, cur: DisplayModel, x: u8, y: u8, rows: Seq<u8>, k: int)
    requires
        d0.on.len() == DISPLAY_PIXELS,
        d0.phosphor.len() == DISPLAY_PIXELS,
        rows.len() <= 15,
        0 <= k < rows.len() * 8,
        partly_drawn(d0, cur, x, y, rows, k),
    ensures
        ({
            let t = draw_target(x, y, k);
            let bit = sprite_bit(rows[k / 8], k % 8);
            &&& 0 <= t < DISPLAY_PIXELS
            &&& bit == sprite_hits(x, y, rows, t)
            &&& cur.on[t] == d0.on[t]
            &&& partly_drawn(d0, if bit { toggled(cur, t) } else { cur }, x, y, rows, k + 1)
            &&& collided_before(d0, x, y, rows, k + 1) == (collided_before(d0, x, y, rows, k) || (
            bit && cur.on[t]))
        }),
{
    reveal(partly_drawn);
    let row = k / 8;
    let col = k % 8;
    let t = draw_target(x, y, k);
    assert(0 <= t < DISPLAY_PIXELS);
    lemma_sprite_cell(x, y, row, col, t);
    assert(sprite_cell(x, y, t) == k);
    let bit = sprite_bit(rows[k / 8], k % 8);
    assert(bit == sprite_hits(x, y, rows, t));
    assert forall|p: int| 0 <= p < DISPLAY_PIXELS && #[trigger] sprite_hits(x, y, rows, p) && p != t
        implies sprite_cell(x, y, p) != k by {
        lemma_sprite_cell_bounds(x, y, p);
        lemma_sprite_cell(x, y, row, col, p);
    }
    let next = if bit { toggled(cur, t) } else { cur };
    assert forall|p: int| 0 <= p < DISPLAY_PIXELS implies #[trigger] pixel_drawn(d0, next, x, y, rows, k + 1, p) by {
        let hit_old = sprite_hits(x, y, rows, p) && sprite_cell(x, y, p) < k;
        assert(pixel_drawn(d0, cur, x, y, rows, k, p));
        if p == t {
            assert(!hit_old);
        } else {
            assert(next.on[p] == cur.on[p]);
            assert(next.phosphor[p] == cur.phosphor[p]);
        }
    }
    if collided_before(d0, x, y, rows, k + 1) && !collided_before(d0, x, y, rows, k) {
        let p = choose|p: int|
            0 <= p < DISPLAY_PIXELS && #[trigger] sprite_hits(x, y, rows, p) && sprite_cell(x, y, p)
                < k + 1 && d0.on[p];
        lemma_sprite_cell(x, y, row, col, p);
    }
    if bit && cur.on[t] {
        assert(sprite_hits(x, y, rows, t));
        assert(collided_before(d0, x, y, rows, k + 1));
    }
    assert(pixel_drawn(d0, cur, x, y, rows, k, t));
}

proof fn lemma_fully_drawn(d0: DisplayModel, cur: DisplayModel, x: u8, y: u8, rows: Seq<u8>)
    requires
        d0.on.len() == DISPLAY_PIXELS,
        d0.phosphor.len() == DISPLAY_PIXELS,
        partly_drawn(d0, cur, x, y, rows, rows.len() * 8 as int),
    ensures
        cur == drawn(d0, x, y, rows),
        collided_before(d0, x, y, rows, rows.len() * 8 as int) == sprite_collides(d0, x, y, rows),
{
    reveal(partly_drawn);
    let d = drawn(d0, x, y, rows);
    assert forall|p: int| 0 <= p < DISPLAY_PIXELS && #[trigger] sprite_hits(x, y, rows, p)
        implies sprite_cell(x, y, p) < rows.len() * 8 by {
        lemma_sprite_cell_bounds(x, y, p);
    }
    assert forall|p: int| 0 <= p < DISPLAY_PIXELS implies cur.on[p] == d.on[p] && cur.phosphor[p]
        == d.phosphor[p] by {
        assert(pixel_drawn(d0, cur, x, y, rows, rows.len() * 8 as int, p));
    }
    assert(cur.on =~= d.on);
    assert(cur.phosphor =~= d.phosphor);
}

impl Display {
    /// The logical grid and phosphor grid have one entry per pixel.
    pub open spec fn wf(&self) -> bool {
        &&& self@.on.len() == DISPLAY_PIXELS
        &&& self@.phosphor.len() == DISPLAY_PIXELS
    }

    /// A dark display with the default settings.
    pub fn new() -> (r: Self)
        ensures
            r.wf(),
            r@.on == Seq::new(DISPLAY_PIXELS as nat, |_p: int| false),
            r@.phosphor == Seq::new(DISPLAY_PIXELS as nat, |_p: int| 0u8),
            r@.settings.phosphor_decay_rate == 15,
            r@.settings.max_phosphor_value == 255,
            r@.settings.color.red_divisor == 4,
            r@.settings.color.green_divisor == 1,
            r@.settings.color.blue_divisor == 8,
    {
        Self::with_settings(DisplaySettings::default())
    }

    /// A dark display with the given settings.
    pub fn with_settings(settings: DisplaySettings) -> (r: Self)
        ensures
            r.wf(),
            r@.on == Seq::new(DISPLAY_PIXELS as nat, |_p: int| false),
            r@.phosphor == Seq::new(DISPLAY_PIXELS as nat, |_p: int| 0u8),
            r@.settings == settings,
    {
        let r = Self {
            display: [false; DISPLAY_PIXELS],
            phosphor: [0u8; DISPLAY_PIXELS],
            settings,
        };
        assert(r@.on =~= Seq::new(DISPLAY_PIXELS as nat, |_p: int| false));
        assert(r@.phosphor =~= Seq::new(DISPLAY_PIXELS as nat, |_p: int| 0u8));
        r
    }

    /// Turns every logical pixel off. The phosphor grid is left as it is, so
    /// cleared pixels fade out over the following renders.
    pub fn clear(&mut self)
        ensures
            final(self).wf(),
            final(self)@ == (DisplayModel {
                on: Seq::new(DISPLAY_PIXELS as nat, |_p: int| false),
                ..old(self)@
            }),
    {
        self.display = [false; DISPLAY_PIXELS];
        assert(self@.on =~= Seq::new(DISPLAY_PIXELS as nat, |_p: int| false));
    }

    /// Decays the phosphor of every unlit pixel once, then writes each
    /// pixel's colour into `buffer` as RGBA, row by row.
    pub fn render_to_buffer(&mut self, buffer: &mut [u8])
        requires
            old(self).wf(),
            old(buffer)@.len() >= FRAME_BYTES,
            old(self)@.settings.color.red_divisor > 0,
            old(self)@.settings.color.green_divisor > 0,
            old(self)@.settings.color.blue_divisor > 0,
        ensures
            final(self).wf(),
            final(self)@ == (DisplayModel { phosphor: decayed_all(old(self)@), ..old(self)@ }),
            is_rendered(final(buffer)@, final(self)@.phosphor, old(self)@.settings, old(buffer)@),
    {
        let ghost d0 = self@;
        let rate = self.settings.phosphor_decay_rate;
        let red = self.settings.color.red_divisor;
        let green = self.settings.color.green_divisor;
        let blue = self.settings.color.blue_divisor;
        let mut p: usize = 0;
        while p < DISPLAY_PIXELS
            invariant
                p <= DISPLAY_PIXELS,
                self.wf(),
                buffer@.len() == old(buffer)@.len(),
                buffer@.len() >= FRAME_BYTES,
                self@.on == d0.on,
                self@.settings == d0.settings,
                d0 == old(self)@,
                d0.phosphor.len() == DISPLAY_PIXELS,
                rate == d0.settings.phosphor_decay_rate,
                red == d0.settings.color.red_divisor,
                green == d0.settings.color.green_divisor,
                blue == d0.settings.color.blue_divisor,
                red > 0,
                green > 0,
                blue > 0,
                forall|q: int|
                    0 <= q < p ==> #[trigger] self@.phosphor[q] == decayed(
                        d0.on[q],
                        d0.phosphor[q],
                        rate,
                    ),
                forall|q: int| p <= q < DISPLAY_PIXELS ==> #[trigger] self@.phosphor[q] == d0.phosphor[q],
                forall|q: int|
                    0 <= q < p ==> #[trigger] pixel_rendered(buffer@, q, self@.phosphor[q], d0.settings),
                forall|i: int| 4 * p <= i < buffer@.len() ==> #[trigger] buffer@[i] == old(buffer)@[i],
            decreases DISPLAY_PIXELS - p,
        {
            if !self.display[p] && self.phosphor[p] > 0 {
                self.phosphor[p] = self.phosphor[p].saturating_sub(rate);
            }
            let ghost buf_before = buffer@;
            let brightness = self.phosphor[p];
            let i = p * RGBA_PIXEL_SIZE;
            buffer[i] = brightness / red;
            buffer[i + 1] = brightness / green;
            buffer[i + 2] = brightness / blue;
            buffer[i + 3] = 255;
            assert(self@.phosphor[p as int] == decayed(d0.on[p as int], d0.phosphor[p as int], rate));
            assert forall|q: int| 0 <= q <= p implies #[trigger] pixel_rendered(
                buffer@,
                q,
                self@.phosphor[q],
                d0.settings,
            ) by {
                if q < p {
                    assert(pixel_rendered(buf_before, q, self@.phosphor[q], d0.settings));
                }
            }
            p += 1;
        }
        assert(self@.phosphor =~= decayed_all(d0));
    }

    /// The display's size in pixels, width first.
    pub fn get_dimensions() -> (r: (u32, u32))
        ensures
            r == (DISPLAY_WIDTH as u32, DISPLAY_HEIGHT as u32),
    {
        (DISPLAY_WIDTH as u32, DISPLAY_HEIGHT as u32)
    }

    /// Whether pixel `(x, y)` is on.
    pub fn get_pixel(&self, x: u8, y: u8) -> (r: bool)
        requires
            self.wf(),
            (x as usize) < DISPLAY_WIDTH,
            (y as usize) < DISPLAY_HEIGHT,
        ensures
            r == self@.on[pixel_index(x as int, y as int)],
    {
        self.display[y as usize * DISPLAY_WIDTH + x as usize]
    }

    /// Flips pixel `(x, y)`; if it is now on, its phosphor goes to the
    /// maximum.
    pub fn toggle_pixel(&mut self, x: u8, y: u8)
        requires
            old(self).wf(),
            (x as usize) < DISPLAY_WIDTH,
            (y as usize) < DISPLAY_HEIGHT,
        ensures
            final(self).wf(),
            ({
                let i = pixel_index(x as int, y as int);
                let lit = !old(self)@.on[i];
                final(self)@ == (DisplayModel {
                    on: old(self)@.on.update(i, lit),
                    phosphor: if lit {
                        old(self)@.phosphor.update(i, old(self)@.settings.max_phosphor_value)
                    } else {
                        old(self)@.phosphor
                    },
                    ..old(self)@
                })
            }),
    {
        let i = y as usize * DISPLAY_WIDTH + x as usize;
        self.display[i] = !self.display[i];
        if self.display[i] {
            self.phosphor[i] = self.settings.max_phosphor_value;
        }
    }

    /// XOR-draws a sprite of `rows` (one byte per row, most significant bit
    /// leftmost) with its top-left corner at `(x, y)`, wrapping around the
    /// edges. Returns whether any lit pixel was turned off.
    pub fn draw_sprite(&mut self, x: u8, y: u8, rows: &[u8]) -> (r: bool)
        requires
            old(self).wf(),
            rows@.len() <= 15,
        ensures
            final(self).wf(),
            final(self)@ == drawn(old(self)@, x, y, rows@),
            r == sprite_collides(old(self)@, x, y, rows@),
    {
        let ghost d0 = self@;
        let mut collision = false;
        let cells = rows.len() * SPRITE_WIDTH;
        let mut k: usize = 0;
        proof {
            reveal(partly_drawn);
            assert forall|p: int| 0 <= p < DISPLAY_PIXELS implies #[trigger] pixel_drawn(
                d0,
                self@,
                x,
                y,
                rows@,
                0,
                p,
            ) by {
                lemma_sprite_cell_bounds(x, y, p);
            }
            if collided_before(d0, x, y, rows@, 0) {
                let p = choose|p: int|
                    0 <= p < DISPLAY_PIXELS && #[trigger] sprite_hits(x, y, rows@, p) && sprite_cell(
                        x,
                        y,
                        p,
                    ) < 0 && d0.on[p];
                lemma_sprite_cell_bounds(x, y, p);
            }
        }
        while k < cells
            invariant
                self.wf(),
                d0 == old(self)@,
                d0.on.len() == DISPLAY_PIXELS,
                d0.phosphor.len() == DISPLAY_PIXELS,
                rows@.len() <= 15,
                cells == rows@.len() * 8,
                k <= cells,
                partly_drawn(d0, self@, x, y, rows@, k as int),
                collision == collided_before(d0, x, y, rows@, k as int),
            decreases cells - k,
        {
            let row = k / SPRITE_WIDTH;
            let col = k % SPRITE_WIDTH;
            let px = ((x as usize) + col) % DISPLAY_WIDTH;
            let py = ((y as usize) + row) % DISPLAY_HEIGHT;
            let t = py * DISPLAY_WIDTH + px;
            let ghost before = self@;
            proof {
                lemma_draw_step(d0, before, x, y, rows@, k as int);
            }
            assert(t == draw_target(x, y, k as int));
            if (rows[row] >> ((7 - col) as u8)) & 1 == 1 {
                if self.display[t] {
                    collision = true;
                }
                self.display[t] = !self.display[t];
                if self.display[t] {
                    self.phosphor[t] = self.settings.max_phosphor_value;
                }
                assert(self@.on =~= toggled(before, t as int).on);
                assert(self@.phosphor =~= toggled(before, t as int).phosphor);
            }
            k += 1;
        }
        proof {
            lemma_fully_drawn(d0, self@, x, y, rows@);
        }
        collision
    }
}

} // verus!
