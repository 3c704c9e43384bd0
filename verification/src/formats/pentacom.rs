//! The glyph grid of Pentacom BitFontMaker2 fonts.
//!
//! A glyph is sixteen rows of sixteen pixels, each row a `u16`: the first row
//! is the top one, and bit `x` of a row is the pixel `x` columns from the
//! left. On the font's grid the columns run from `GLYPH_X_MIN` to
//! `GLYPH_X_MAX` and the rows from `GLYPH_Y_MAX` at the top down to
//! `GLYPH_Y_MIN`.
use vstd::prelude::*;

use crate::geometry::Point;
use crate::pixels::Pixels;

verus! {

pub const GLYPH_WIDTH_MAX: usize = 16;
pub const GLYPH_HEIGHT: usize = 16;
pub const GLYPH_X_MIN: i32 = -2;
pub const GLYPH_X_MAX: i32 = 13;
pub const GLYPH_Y_MIN: i32 = -4;
pub const GLYPH_Y_MAX: i32 = 11;

/// Bit `x` of `row` is set.
pub open spec fn row_bit(row: u16, x: u16) -> bool {
    (row >> x) & 1 == 1
}

/// `p` lies on the sixteen-by-sixteen glyph grid.
pub open spec fn on_grid(p: Point) -> bool {
    GLYPH_X_MIN <= p.x <= GLYPH_X_MAX && GLYPH_Y_MIN <= p.y <= GLYPH_Y_MAX
}

/// The grid pixel in row `r` (from the top) and column `x` (from the left).
pub open spec fn grid_point(r: int, x: int) -> Point {
    Point { x: (GLYPH_X_MIN + x) as i32, y: (GLYPH_Y_MAX - r) as i32 }
}

/// The pixels that sixteen rows describe.
pub open spec fn rows_pixels(rows: Seq<u16>) -> Set<Point> {
    Set::new(|p: Point| on_grid(p) && row_bit(rows[GLYPH_Y_MAX - p.y], (p.x - GLYPH_X_MIN) as u16))
}

proof fn lemma_shift_in(out: u16, b: u16, j: u16, j1: u16)
    requires
        b <= 1,
        j < 15,
        j1 == j + 1,
    ensures
        ((out << 1u16) | b) & 1u16 == b,
        (((out << 1u16) | b) >> j1) & 1u16 == (out >> j) & 1u16,
{
    assert(((out << 1u16) | b) & 1u16 == b) by (bit_vector)
        requires b <= 1u16;
    let shifted: u16 = (out << 1u16) | b;
    assert(shifted >> 1u16 == out & 0x7fffu16) by (bit_vector)
        requires shifted == (out << 1u16) | b, b <= 1u16;
    assert((shifted >> j1) == (shifted >> 1u16) >> j) by (bit_vector)
        requires j < 15u16, j1 == j + 1u16;
    assert(((out & 0x7fffu16) >> j) & 1u16 == (out >> j) & 1u16) by (bit_vector)
        requires j < 15u16;
}

/// The number whose binary digits, least significant first, are the pixels of
/// `pixels` at height `y` in the `k` columns ending at `GLYPH_X_MAX`, read
/// from the rightmost column leftwards (Horner's rule).
pub open spec fn shifted_row(pixels: Set<Point>, y: i32, k: nat) -> nat
    decreases k,
{
    if k == 0 {
        0
    } else {
        shifted_row(pixels, y, (k - 1) as nat) * 2 + if pixels.contains(
            Point { x: (GLYPH_X_MAX - (k - 1)) as i32, y },
        ) {
            1nat
        } else {
            0nat
        }
    }
}

/// The row value that describes the pixels of `pixels` at height `y`.
pub open spec fn row_value(pixels: Set<Point>, y: i32) -> u16 {
    shifted_row(pixels, y, 16) as u16
}

proof fn lemma_shift_is_double(out: u16, b: u16)
    requires
        out < 0x8000,
        b <= 1,
    ensures
        (out << 1u16) | b == out * 2 + b,
{
    assert((out << 1u16) | b == out * 2 + b) by (bit_vector)
        requires out < 0x8000u16, b <= 1u16;
}

proof fn lemma_shift_zero(b: u16)
    ensures
        (b >> 0u16) == b,
{
    assert((b >> 0u16) == b) by (bit_vector);
}

/// The row of the grid that holds the pixels of `pixels` at height `y`.
fn grid_row(pixels: &Pixels, y: i32) -> (row: u16)
    requires
        GLYPH_Y_MIN <= y <= GLYPH_Y_MAX,
    ensures
        forall|x: u16| x < 16 ==> row_bit(row, x) == #[trigger] pixels@.contains(
            Point { x: (GLYPH_X_MIN + x) as i32, y },
        ),
        row == row_value(pixels@, y),
{
    let mut out: u16 = 0;
    let mut k: u16 = 0;
    proof {
        vstd::arithmetic::power2::lemma2_to64();
    }
    // Columns are shifted in from the right edge leftwards, so after `k` of
    // them bit `j` holds the column `GLYPH_X_MAX - k + 1 + j`.
    while k < 16
        invariant
            k <= 16,
            forall|j: u16| j < k ==> row_bit(out, j) == #[trigger] pixels@.contains(
                Point { x: (GLYPH_X_MAX - k + 1 + j) as i32, y },
            ),
            out == shifted_row(pixels@, y, k as nat),
            shifted_row(pixels@, y, k as nat) < vstd::arithmetic::power2::pow2(k as nat),
        decreases 16 - k,
    {
        let col = GLYPH_X_MAX - (k as i32);
        let on: u16 = if pixels.get(Point::new(col, y)) { 1 } else { 0 };
        let ghost prev = out;
        proof {
            vstd::arithmetic::power2::lemma_pow2_unfold((k + 1) as nat);
            vstd::arithmetic::power2::lemma_pow2_pos(k as nat);
            if k < 15 {
                vstd::arithmetic::power2::lemma_pow2_strictly_increases(k as nat, 15);
                vstd::arithmetic::power2::lemma2_to64();
            } else {
                vstd::arithmetic::power2::lemma2_to64();
            }
            assert(prev < 0x8000);
            lemma_shift_is_double(prev, on);
        }
        out = out << 1 | on;
        proof {
            assert forall|j: u16| j < k + 1 implies row_bit(out, j) == #[trigger] pixels@.contains(
                Point { x: (GLYPH_X_MAX - (k + 1) + 1 + j) as i32, y },
            ) by {
                if j == 0 {
                    lemma_shift_in(prev, on, 0, 1);
                    lemma_shift_zero(out);
                } else {
                    lemma_shift_in(prev, on, (j - 1) as u16, j);
                    assert(row_bit(prev, (j - 1) as u16) == pixels@.contains(
                        Point { x: (GLYPH_X_MAX - k + 1 + (j - 1)) as i32, y },
                    ));
                }
            }
        }
        k = k + 1;
    }
    assert forall|x: u16| x < 16 implies row_bit(out, x) == #[trigger] pixels@.contains(
        Point { x: (GLYPH_X_MIN + x) as i32, y },
    ) by {
        assert(row_bit(out, x) == pixels@.contains(Point { x: (GLYPH_X_MAX - 16 + 1 + x) as i32, y }));
    }
    out
}

/// The sixteen rows that describe the grid pixels of `pixels`; pixels off the
/// grid are left out.
pub fn glyph_rows(pixels: &Pixels) -> (rows: Vec<u16>)
    ensures
        rows@.len() == GLYPH_HEIGHT,
        forall|r: int, x: u16| 0 <= r < 16 && x < 16 ==> row_bit(#[trigger] rows@[r], x) == pixels@.contains(
            #[trigger] grid_point(r, x as int),
        ),
        forall|r: int| 0 <= r < 16 ==> #[trigger] rows@[r] == row_value(pixels@, (GLYPH_Y_MAX - r) as i32),
{
    let mut rows: Vec<u16> = Vec::with_capacity(GLYPH_HEIGHT);
    let mut r: usize = 0;
    while r < GLYPH_HEIGHT
        invariant
            r <= GLYPH_HEIGHT,
            rows@.len() == r,
            forall|i: int, x: u16| 0 <= i < r && x < 16 ==> row_bit(#[trigger] rows@[i], x) == pixels@.contains(
                #[trigger] grid_point(i, x as int),
            ),
            forall|i: int| 0 <= i < r ==> #[trigger] rows@[i] == row_value(pixels@, (GLYPH_Y_MAX - i) as i32),
        decreases GLYPH_HEIGHT - r,
    {
        let y = GLYPH_Y_MAX - (r as i32);
        let row = grid_row(pixels, y);
        rows.push(row);
        r += 1;
    }
    rows
}

/// The pixels that sixteen rows describe.
pub fn pixels_from_rows(rows: &Vec<u16>) -> (pixels: Pixels)
    requires
        rows@.len() == GLYPH_HEIGHT,
    ensures
        pixels@ == rows_pixels(rows@),
{
    let mut pixels = Pixels::new();
    let mut r: usize = 0;
    while r < GLYPH_HEIGHT
        invariant
            r <= GLYPH_HEIGHT,
            rows@.len() == GLYPH_HEIGHT,
            pixels@ == Set::new(|p: Point|
                on_grid(p) && GLYPH_Y_MAX - p.y < r && row_bit(rows@[GLYPH_Y_MAX - p.y], (p.x - GLYPH_X_MIN) as u16)),
        decreases GLYPH_HEIGHT - r,
    {
        let y = GLYPH_Y_MAX - (r as i32);
        let row = rows[r];
        let mut x: u16 = 0;
        while x < 16
            invariant
                r < GLYPH_HEIGHT,
                x <= 16,
                y == GLYPH_Y_MAX - r,
                row == rows@[r as int],
                rows@.len() == GLYPH_HEIGHT,
                pixels@ == Set::new(|p: Point|
                    on_grid(p) && row_bit(rows@[GLYPH_Y_MAX - p.y], (p.x - GLYPH_X_MIN) as u16)
                    && (GLYPH_Y_MAX - p.y < r || (p.y == y && p.x - GLYPH_X_MIN < x))),
            decreases 16 - x,
        {
            let bit = (row >> x) & 1 == 1;
            pixels.set(Point::new(GLYPH_X_MIN + (x as i32), y), bit);
            assert(pixels@ =~= Set::new(|p: Point|
                on_grid(p) && row_bit(rows@[GLYPH_Y_MAX - p.y], (p.x - GLYPH_X_MIN) as u16)
                && (GLYPH_Y_MAX - p.y < r || (p.y == y && p.x - GLYPH_X_MIN < x + 1))));
            x += 1;
        }
        assert(pixels@ =~= Set::new(|p: Point|
            on_grid(p) && GLYPH_Y_MAX - p.y < r + 1 && row_bit(rows@[GLYPH_Y_MAX - p.y], (p.x - GLYPH_X_MIN) as u16)));
        r += 1;
    }
    assert(pixels@ =~= rows_pixels(rows@));
    pixels
}

/// Reading back the rows written for a glyph gives the glyph's pixels that lie
/// on the grid.
pub proof fn lemma_rows_roundtrip(pixels: Set<Point>, rows: Seq<u16>)
    requires
        rows.len() == GLYPH_HEIGHT,
        forall|r: int, x: u16| 0 <= r < 16 && x < 16 ==> row_bit(#[trigger] rows[r], x) == pixels.contains(
            #[trigger] grid_point(r, x as int),
        ),
    ensures
        rows_pixels(rows) == pixels.filter(|p: Point| on_grid(p)),
{
    assert forall|p: Point| rows_pixels(rows).contains(p) <==> pixels.filter(|p: Point| on_grid(p)).contains(p) by {
        if on_grid(p) {
            let r = GLYPH_Y_MAX - p.y;
            let x = (p.x - GLYPH_X_MIN) as u16;
            assert(grid_point(r, x as int) == p);
        }
    }
    assert(rows_pixels(rows) =~= pixels.filter(|p: Point| on_grid(p)));
}

} // verus!
