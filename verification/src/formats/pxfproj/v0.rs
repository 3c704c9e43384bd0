//! Version 0 of the project file: the font model in a shape that a TOML
//! document holds, with each glyph's pixels drawn as rows of text.
//!
//! A glyph's pixels are drawn over the columns `min_x..=max_x` and the rows
//! `max_y` down to `min_y`, one line per row: `X` for a pixel that is on, `.`
//! for one that is off.
use vstd::prelude::*;

use vstd::arithmetic::div_mod::lemma_fundamental_div_mod_converse;

use indexmap::IndexMap;

use crate::font::{
    CodepointMapping, CodepointMappingView, Font, FontView, GlyphView, GuidelineView, GuidelinesView, MetadataView,
    MetricsView,
};
use crate::geometry::{u32_as_i32, Point};
use crate::maps::{
    glyph_map_entries, glyph_map_get_index, glyph_map_insert, glyph_map_len, glyph_map_new, glyph_map_replace_value,
    lemma_map_insert_all_step, map_insert_all, take_entry, mapping_map_entries, mapping_map_get_index, mapping_map_insert, mapping_map_len, mapping_map_new,
    mapping_map_replace_value, string_map_entries, string_map_len, string_map_new,
};
use crate::pixels::{bounding_rect, fits_bounding_rect};

verus! {

// ---------------------------------------------------------------------------
// Writing pixels as text

/// The character drawn for a pixel.
pub open spec fn cell(on: bool) -> char {
    if on { 'X' } else { '.' }
}

/// One line of the drawing: the `width` pixels of row `y` from column
/// `min_x` rightwards, then a line break.
pub open spec fn row_text(pixels: Set<Point>, min_x: int, y: int, width: nat) -> Seq<char> {
    Seq::new(width, |c: int| cell(pixels.contains(Point { x: (min_x + c) as i32, y: y as i32 }))).push('\n')
}

/// The first `rows` lines of the drawing, from row `max_y` downwards.
pub open spec fn grid_text(pixels: Set<Point>, min_x: int, max_y: int, width: nat, rows: nat) -> Seq<char>
    decreases rows,
{
    if rows == 0 {
        Seq::empty()
    } else {
        grid_text(pixels, min_x, max_y, width, (rows - 1) as nat) + row_text(pixels, min_x, max_y - (rows - 1), width)
    }
}

/// The bounding rectangle of `pixels` can be drawn: its right and top edges
/// fit an `i32`.
pub open spec fn drawable(pixels: Set<Point>) -> bool {
    &&& fits_bounding_rect(pixels)
    &&& bounding_rect(pixels).width <= i32::MAX
    &&& bounding_rect(pixels).height <= i32::MAX
}

// ---------------------------------------------------------------------------
// Reading pixels back

pub open spec fn is_pixel_char(c: char) -> bool {
    c == 'X' || c == '.'
}

/// The characters of `s` that stand for pixels, in order.
pub open spec fn pixel_chars(s: Seq<char>) -> Seq<char>
    decreases s.len(),
{
    if s.len() == 0 {
        Seq::empty()
    } else if is_pixel_char(s.last()) {
        pixel_chars(s.drop_last()).push(s.last())
    } else {
        pixel_chars(s.drop_last())
    }
}

/// How many pixels the reader places on the first row: from `min_x` to
/// `max_x`, or one where `min_x` lies past `max_x`.
pub open spec fn first_run(min_x: int, max_x: int) -> int {
    if min_x <= max_x { max_x - min_x + 1 } else { 1 }
}

/// How many pixels the reader places on each later row, which it starts at
/// column 0: up to `max_x`, or one where `max_x` is negative.
pub open spec fn later_run(max_x: int) -> int {
    if max_x >= 0 { max_x + 1 } else { 1 }
}

/// The column at which the reader places the `k`th pixel character.
pub open spec fn walk_x(k: int, min_x: int, max_x: int) -> int {
    if k < first_run(min_x, max_x) {
        min_x + k
    } else {
        (k - first_run(min_x, max_x)) % later_run(max_x)
    }
}

/// The row at which the reader places the `k`th pixel character.
pub open spec fn walk_y(k: int, min_x: int, max_x: int, max_y: int) -> int {
    if k < first_run(min_x, max_x) {
        max_y
    } else {
        max_y - 1 - (k - first_run(min_x, max_x)) / later_run(max_x)
    }
}

pub open spec fn walk_point(k: int, min_x: int, max_x: int, max_y: int) -> Point {
    Point { x: walk_x(k, min_x, max_x) as i32, y: walk_y(k, min_x, max_x, max_y) as i32 }
}

/// Placing `count` pixel characters keeps every column and row the reader
/// computes within `i32`.
pub open spec fn walk_fits(min_x: int, max_x: int, max_y: int, count: int) -> bool {
    forall|k: int|
        0 <= k < count ==> #[trigger] walk_x(k, min_x, max_x) < i32::MAX && i32::MIN <= walk_y(
            k + 1,
            min_x,
            max_x,
            max_y,
        )
}

/// The pixels that the reader turns on for the pixel characters `chars`.
pub open spec fn walk_pixels(chars: Seq<char>, min_x: int, max_x: int, max_y: int) -> Set<Point> {
    Set::new(
        |p: Point|
            exists|k: int|
                0 <= k < chars.len() && chars[k] == 'X' && #[trigger] walk_point(k, min_x, max_x, max_y) == p,
    )
}

/// The reader's step: after placing a pixel it moves one column right, or,
/// past `max_x`, to column 0 of the next row down.
proof fn lemma_walk_step(k: int, min_x: int, max_x: int, max_y: int)
    requires
        0 <= k,
    ensures
        walk_x(k, min_x, max_x) + 1 > max_x ==> walk_x(k + 1, min_x, max_x) == 0 && walk_y(k + 1, min_x, max_x, max_y)
            == walk_y(k, min_x, max_x, max_y) - 1,
        walk_x(k, min_x, max_x) + 1 <= max_x ==> walk_x(k + 1, min_x, max_x) == walk_x(k, min_x, max_x) + 1
            && walk_y(k + 1, min_x, max_x, max_y) == walk_y(k, min_x, max_x, max_y),
{
    let f = first_run(min_x, max_x);
    let l = later_run(max_x);
    if k + 1 < f {
    } else if k + 1 == f {
        lemma_fundamental_div_mod_converse(0, l, 0, 0);
    } else {
        let j = k - f;
        let q = j / l;
        let r = j % l;
        vstd::arithmetic::div_mod::lemma_fundamental_div_mod(j, l);
        vstd::arithmetic::mul::lemma_mul_is_commutative(l, q);
        vstd::arithmetic::div_mod::lemma_mod_pos_bound(j, l);
        if r == l - 1 {
            assert((q + 1) * l == q * l + l) by (nonlinear_arith);
            lemma_fundamental_div_mod_converse(j + 1, l, q + 1, 0);
        } else {
            lemma_fundamental_div_mod_converse(j + 1, l, q, r + 1);
        }
    }
}

/// Later pixel characters are placed on the same row or lower.
proof fn lemma_walk_descends(k1: int, k2: int, min_x: int, max_x: int, max_y: int)
    requires
        0 <= k1 <= k2,
    ensures
        walk_y(k2, min_x, max_x, max_y) <= walk_y(k1, min_x, max_x, max_y),
    decreases k2 - k1,
{
    if k1 < k2 {
        lemma_walk_step(k2 - 1, min_x, max_x, max_y);
        lemma_walk_descends(k1, k2 - 1, min_x, max_x, max_y);
    }
}

/// The reader never places two pixel characters at the same point.
proof fn lemma_walk_distinct(k1: int, k2: int, min_x: int, max_x: int, max_y: int)
    requires
        0 <= k1 < k2,
    ensures
        walk_x(k1, min_x, max_x) != walk_x(k2, min_x, max_x) || walk_y(k1, min_x, max_x, max_y) != walk_y(
            k2,
            min_x,
            max_x,
            max_y,
        ),
{
    let f = first_run(min_x, max_x);
    let l = later_run(max_x);
    if k1 >= f {
        let j1 = k1 - f;
        let j2 = k2 - f;
        if j1 / l == j2 / l {
            vstd::arithmetic::div_mod::lemma_fundamental_div_mod(j1, l);
            vstd::arithmetic::div_mod::lemma_fundamental_div_mod(j2, l);
        }
    } else if k2 >= f {
        vstd::arithmetic::div_mod::lemma_div_pos_is_pos(k2 - f, l);
    }
}

/// The pixel characters of a prefix are a prefix of the pixel characters.
proof fn lemma_pixel_chars_prefix(s: Seq<char>, i: int)
    requires
        0 <= i <= s.len(),
    ensures
        pixel_chars(s.take(i)).len() <= pixel_chars(s).len(),
        pixel_chars(s.take(i)) == pixel_chars(s).take(pixel_chars(s.take(i)).len() as int),
    decreases s.len(),
{
    if i == s.len() {
        assert(s.take(i) =~= s);
    } else {
        assert(s.drop_last().take(i) =~= s.take(i));
        lemma_pixel_chars_prefix(s.drop_last(), i);
        let p = pixel_chars(s.drop_last());
        if is_pixel_char(s.last()) {
            assert(p.push(s.last()).take(pixel_chars(s.take(i)).len() as int) =~= p.take(
                pixel_chars(s.take(i)).len() as int,
            ));
        }
    }
}

/// `|a - b|`.
pub open spec fn abs_diff(a: int, b: int) -> int {
    if a >= b { a - b } else { b - a }
}

/// A glyph's pixels as they stand in a project file.
#[derive(Debug, Clone)]
pub struct Pixels {
    pub min_x: i32,
    pub min_y: i32,
    pub max_x: i32,
    pub max_y: i32,
    pub pixels: String,
}

/// What a drawing holds: its bounds and its text.
pub struct PixelsView {
    pub min_x: i32,
    pub min_y: i32,
    pub max_x: i32,
    pub max_y: i32,
    pub text: Seq<char>,
}

impl View for Pixels {
    type V = PixelsView;

    open spec fn view(&self) -> PixelsView {
        PixelsView { min_x: self.min_x, min_y: self.min_y, max_x: self.max_x, max_y: self.max_y, text: self.pixels@ }
    }
}

impl PixelsView {
    /// The number of columns the drawing spans: `|max_x - min_x| + 1`.
    pub open spec fn width(self) -> int {
        abs_diff(self.max_x as int, self.min_x as int) + 1
    }

    /// The number of rows the drawing spans: `|max_y - min_y| + 1`.
    pub open spec fn height(self) -> int {
        abs_diff(self.max_y as int, self.min_y as int) + 1
    }

    /// The drawing can be read back: its width and height and their product
    /// fit a `u32`, it holds exactly that many pixel characters, and placing
    /// them stays within `i32`.
    pub open spec fn readable(self) -> bool {
        &&& self.width() * self.height() <= u32::MAX
        &&& self.width() <= u32::MAX
        &&& self.height() <= u32::MAX
        &&& pixel_chars(self.text).len() == self.width() * self.height()
        &&& walk_fits(self.min_x as int, self.max_x as int, self.max_y as int, pixel_chars(self.text).len() as int)
    }

    /// The pixels the drawing turns on.
    pub open spec fn read_pixels(self) -> Set<Point> {
        walk_pixels(pixel_chars(self.text), self.min_x as int, self.max_x as int, self.max_y as int)
    }
}

/// The drawing of `pixels` over their bounding rectangle, up to and
/// including its right and top edges.
pub open spec fn drawing(pixels: Set<Point>) -> PixelsView {
    let rect = bounding_rect(pixels);
    let max_x = rect.x + rect.width;
    let max_y = rect.y + rect.height;
    PixelsView {
        min_x: rect.x,
        min_y: rect.y,
        max_x: max_x as i32,
        max_y: max_y as i32,
        text: grid_text(pixels, rect.x as int, max_y, (max_x - rect.x + 1) as nat, (max_y - rect.y + 1) as nat),
    }
}

impl Pixels {
    /// The number of columns: `|max_x - min_x| + 1`.
    pub fn width(&self) -> (w: u32)
        requires
            self@.width() <= u32::MAX,
        ensures
            w == self@.width(),
    {
        let d: i64 = (self.max_x as i64) - (self.min_x as i64);
        let d = if d < 0 { -d } else { d };
        (d + 1) as u32
    }

    /// The number of rows: `|max_y - min_y| + 1`.
    pub fn height(&self) -> (h: u32)
        requires
            self@.height() <= u32::MAX,
        ensures
            h == self@.height(),
    {
        let d: i64 = (self.max_y as i64) - (self.min_y as i64);
        let d = if d < 0 { -d } else { d };
        (d + 1) as u32
    }

    /// The number of pixel characters in the drawing.
    fn count_pixel_chars(&self) -> (n: usize)
        ensures
            n == pixel_chars(self.pixels@).len(),
    {
        let text = self.pixels.as_str();
        let len = text.unicode_len();
        let mut n: usize = 0;
        let mut i: usize = 0;
        assert(self.pixels@.take(0) =~= Seq::<char>::empty());
        while i < len
            invariant
                text@ == self.pixels@,
                len == self.pixels@.len(),
                i <= len,
                n == pixel_chars(self.pixels@.take(i as int)).len(),
                n <= i,
            decreases len - i,
        {
            let c = text.get_char(i);
            assert(self.pixels@.take(i + 1).drop_last() =~= self.pixels@.take(i as int));
            assert(self.pixels@.take(i + 1).last() == c);
            if c == 'X' || c == '.' {
                n += 1;
            }
            i += 1;
        }
        assert(self.pixels@.take(len as int) =~= self.pixels@);
        n
    }

    /// Whether the drawing can be read back; see `PixelsView::readable`.
    pub fn is_readable(&self) -> (r: bool)
        ensures
            r == self@.readable(),
    {
        let dx: i64 = (self.max_x as i64) - (self.min_x as i64);
        let dy: i64 = (self.max_y as i64) - (self.min_y as i64);
        let w: u64 = (if dx < 0 { -dx } else { dx }) as u64 + 1;
        let h: u64 = (if dy < 0 { -dy } else { dy }) as u64 + 1;
        assert(w == self@.width() && h == self@.height());
        if w > 0xffff_ffff || h > 0xffff_ffff {
            return false;
        }
        assert(w * h <= 0xffff_ffffu64 * 0xffff_ffffu64) by (nonlinear_arith)
            requires
                w <= 0xffff_ffffu64,
                h <= 0xffff_ffffu64,
        ;
        let area: u64 = w * h;
        if area > 0xffff_ffff {
            return false;
        }
        let n = self.count_pixel_chars();
        if n as u64 != area {
            return false;
        }
        let ghost min_x = self.min_x as int;
        let ghost max_x = self.max_x as int;
        let ghost max_y = self.max_y as int;
        let mut col: i64 = self.min_x as i64;
        let mut row: i64 = self.max_y as i64;
        let mut k: usize = 0;
        while k < n
            invariant
                min_x == self.min_x,
                max_x == self.max_x,
                max_y == self.max_y,
                n == pixel_chars(self.pixels@).len(),
                self@.width() * self@.height() <= u32::MAX,
                self@.width() <= u32::MAX,
                self@.height() <= u32::MAX,
                n == self@.width() * self@.height(),
                k <= n,
                col == walk_x(k as int, min_x, max_x),
                row == walk_y(k as int, min_x, max_x, max_y),
                i32::MIN <= row <= i32::MAX,
                i32::MIN <= col <= i32::MAX,
                forall|j: int| 0 <= j < k ==> #[trigger] walk_x(j, min_x, max_x) < i32::MAX && i32::MIN <= walk_y(
                    j + 1,
                    min_x,
                    max_x,
                    max_y,
                ),
            decreases n - k,
        {
            proof {
                lemma_walk_step(k as int, min_x, max_x, max_y);
            }
            if col >= 0x7fff_ffff {
                return false;
            }
            col = col + 1;
            if col > self.max_x as i64 {
                col = 0;
                if row - 1 < -0x8000_0000 {
                    return false;
                }
                row = row - 1;
            }
            k += 1;
        }
        true
    }

    /// The pixels the drawing turns on. Pixel characters are placed from
    /// `(min_x, max_y)` rightwards; past `max_x` the reader moves down a row
    /// and starts again at column 0. Other characters are skipped.
    pub fn to_pixels(&self) -> (p: crate::pixels::Pixels)
        requires
            self@.readable(),
        ensures
            p@ == self@.read_pixels(),
    {
        let ghost chars = self.pixels@;
        let ghost pc = pixel_chars(chars);
        let ghost min_x = self.min_x as int;
        let ghost max_x = self.max_x as int;
        let ghost max_y = self.max_y as int;
        let text = self.pixels.as_str();
        let len = text.unicode_len();
        let mut out = crate::pixels::Pixels::with_capacity(len);
        let mut col: i32 = self.min_x;
        let mut row: i32 = self.max_y;
        let ghost mut k: int = 0;
        let mut i: usize = 0;
        proof {
            assert(chars.take(0) =~= Seq::<char>::empty());
            assert(out@ =~= walk_pixels(Seq::empty(), min_x, max_x, max_y));
        }
        while i < len
            invariant
                text@ == chars,
                chars == self.pixels@,
                pc == pixel_chars(chars),
                min_x == self.min_x,
                max_x == self.max_x,
                max_y == self.max_y,
                len == chars.len(),
                i <= len,
                0 <= k <= pc.len(),
                pixel_chars(chars.take(i as int)) == pc.take(k),
                walk_fits(min_x, max_x, max_y, pc.len() as int),
                col == walk_x(k, min_x, max_x),
                row == walk_y(k, min_x, max_x, max_y),
                out@ == walk_pixels(pc.take(k), min_x, max_x, max_y),
            decreases len - i,
        {
            let c = text.get_char(i);
            proof {
                assert(chars.take(i + 1).drop_last() =~= chars.take(i as int));
                assert(chars.take(i + 1).last() == c);
                lemma_pixel_chars_prefix(chars, i + 1);
            }
            if c == 'X' || c == '.' {
                proof {
                    assert(pixel_chars(chars.take(i + 1)) == pc.take(k).push(c));
                    assert(pc.take(k + 1) =~= pc.take(k).push(c));
                    assert(k < pc.len());
                    assert(walk_x(k, min_x, max_x) < i32::MAX);
                    lemma_walk_step(k, min_x, max_x, max_y);
                }
                let ghost before = out@;
                out.set(Point::new(col, row), c == 'X');
                proof {
                    let here = walk_point(k, min_x, max_x, max_y);
                    assert(here == Point { x: col, y: row });
                    assert forall|q: int| 0 <= q < k implies #[trigger] walk_point(q, min_x, max_x, max_y) != here by {
                        lemma_walk_distinct(q, k, min_x, max_x, max_y);
                        lemma_walk_descends(q, k, min_x, max_x, max_y);
                        if q > 0 {
                            assert(i32::MIN <= walk_y(q, min_x, max_x, max_y)) by {
                                assert(walk_x(q - 1, min_x, max_x) < i32::MAX);
                            }
                        }
                    }
                    assert(out@ =~= walk_pixels(pc.take(k + 1), min_x, max_x, max_y));
                }
                col = col + 1;
                if col > self.max_x {
                    col = 0;
                    proof {
                        assert(i32::MIN <= walk_y(k + 1, min_x, max_x, max_y)) by {
                            assert(walk_x(k, min_x, max_x) < i32::MAX);
                        }
                    }
                    row = row - 1;
                }
                proof {
                    k = k + 1;
                }
            } else {
                proof {
                    assert(pixel_chars(chars.take(i + 1)) == pc.take(k));
                }
            }
            i += 1;
        }
        proof {
            assert(chars.take(len as int) =~= chars);
            assert(pc.take(k) =~= pc);
        }
        out
    }

    /// Draws `pixels` over their bounding rectangle, from its left and bottom
    /// edges up to and including its right and top edges.
    pub fn from_pixels(pixels: &crate::pixels::Pixels) -> (r: Self)
        requires
            drawable(pixels@),
        ensures
            r@ == drawing(pixels@),
    {
        let rect = pixels.rect();
        let min_x = rect.left();
        let min_y = rect.bottom();
        let max_x = rect.right();
        let max_y = rect.top();
        let ghost width = (max_x - min_x + 1) as nat;
        let mut repr = String::new();
        let mut row: i64 = max_y as i64;
        proof {
            reveal_strlit("X");
            reveal_strlit(".");
            reveal_strlit("\n");
            assert(repr@ =~= grid_text(pixels@, min_x as int, max_y as int, width, 0));
        }
        while row >= min_y as i64
            invariant
                min_x <= max_x,
                min_y <= max_y,
                width == max_x - min_x + 1,
                min_y - 1 <= row <= max_y,
                repr@ == grid_text(pixels@, min_x as int, max_y as int, width, (max_y - row) as nat),
            decreases row - min_y + 1,
        {
            let mut col: i64 = min_x as i64;
            let ghost done = repr@;
            while col <= max_x as i64
                invariant
                    min_x <= col <= max_x + 1,
                    min_y <= row <= max_y,
                    repr@ == done + Seq::new(
                        (col - min_x) as nat,
                        |c: int| cell(pixels@.contains(Point { x: (min_x + c) as i32, y: row as i32 })),
                    ),
                decreases max_x - col + 1,
            {
                let on = pixels.get(Point::new(col as i32, row as i32));
                let ghost before = repr@;
                if on {
                    repr.append("X");
                } else {
                    repr.append(".");
                }
                proof {
                    reveal_strlit("X");
                    reveal_strlit(".");
                    assert(repr@ =~= done + Seq::new(
                        (col + 1 - min_x) as nat,
                        |c: int| cell(pixels@.contains(Point { x: (min_x + c) as i32, y: row as i32 })),
                    ));
                }
                col += 1;
            }
            repr.append("\n");
            proof {
                reveal_strlit("\n");
                let k = (max_y - row) as nat;
                assert(max_y - ((k + 1) - 1) == row);
                assert(repr@ =~= grid_text(pixels@, min_x as int, max_y as int, width, k + 1));
            }
            row -= 1;
        }
        Pixels { min_x, min_y, max_x, max_y, pixels: repr }
    }
}

// ---------------------------------------------------------------------------
// Reading back what was written

proof fn lemma_pixel_chars_concat(a: Seq<char>, b: Seq<char>)
    ensures
        pixel_chars(a + b) == pixel_chars(a) + pixel_chars(b),
    decreases b.len(),
{
    if b.len() == 0 {
        assert(a + b =~= a);
        assert(pixel_chars(a) + pixel_chars(b) =~= pixel_chars(a));
    } else {
        assert((a + b).drop_last() =~= a + b.drop_last());
        assert((a + b).last() == b.last());
        lemma_pixel_chars_concat(a, b.drop_last());
        if is_pixel_char(b.last()) {
            assert(pixel_chars(a) + pixel_chars(b.drop_last()).push(b.last()) =~= (pixel_chars(a) + pixel_chars(
                b.drop_last(),
            )).push(b.last()));
        }
    }
}

proof fn lemma_pixel_chars_all(s: Seq<char>)
    requires
        forall|i: int| 0 <= i < s.len() ==> is_pixel_char(#[trigger] s[i]),
    ensures
        pixel_chars(s) == s,
    decreases s.len(),
{
    if s.len() > 0 {
        lemma_pixel_chars_all(s.drop_last());
        assert(s.drop_last().push(s.last()) =~= s);
    }
}

/// The cell of the drawing at position `k` of its pixel characters, for lines
/// of `width` cells.
pub open spec fn grid_cell(pixels: Set<Point>, min_x: int, max_y: int, width: nat, k: int) -> char {
    cell(pixels.contains(Point { x: (min_x + k % (width as int)) as i32, y: (max_y - k / (width as int)) as i32 }))
}

proof fn lemma_grid_cells(pixels: Set<Point>, min_x: int, max_y: int, width: nat, rows: nat)
    requires
        width > 0,
    ensures
        pixel_chars(grid_text(pixels, min_x, max_y, width, rows)) == Seq::new(
            width * rows,
            |k: int| grid_cell(pixels, min_x, max_y, width, k),
        ),
    decreases rows,
{
    if rows == 0 {
        assert(pixel_chars(grid_text(pixels, min_x, max_y, width, 0)) =~= Seq::<char>::empty());
    } else {
        let r = (rows - 1) as nat;
        let y = max_y - r;
        lemma_grid_cells(pixels, min_x, max_y, width, r);
        let line = Seq::new(width, |c: int| cell(pixels.contains(Point { x: (min_x + c) as i32, y: y as i32 })));
        lemma_pixel_chars_concat(line, seq!['\n']);
        assert(line + seq!['\n'] =~= row_text(pixels, min_x, y, width));
        lemma_pixel_chars_all(line);
        assert(pixel_chars(seq!['\n']) =~= Seq::<char>::empty()) by {
            let nl = seq!['\n'];
            assert(nl.drop_last() =~= Seq::<char>::empty());
            assert(nl.last() == '\n');
            assert(pixel_chars(nl.drop_last()) =~= Seq::<char>::empty());
        }
        lemma_pixel_chars_concat(grid_text(pixels, min_x, max_y, width, r), row_text(pixels, min_x, y, width));
        assert(width * rows == width * r + width) by (nonlinear_arith)
            requires rows == r + 1;
        assert forall|k: int| 0 <= k < width * rows implies #[trigger] pixel_chars(
            grid_text(pixels, min_x, max_y, width, rows),
        )[k] == grid_cell(pixels, min_x, max_y, width, k) by {
            if k >= width * r {
                let c = k - width * r;
                assert(k == r * width + c) by (nonlinear_arith)
                    requires c == k - width * r;
                lemma_fundamental_div_mod_converse(k, width as int, r as int, c);
            }
        }
        assert(pixel_chars(grid_text(pixels, min_x, max_y, width, rows)) =~= Seq::new(
            width * rows,
            |k: int| grid_cell(pixels, min_x, max_y, width, k),
        ));
    }
}

/// Where the drawing starts at column 0, the reader walks its cells line by
/// line: the `k`th pixel character is at column `k % width` of line
/// `k / width`.
proof fn lemma_walk_grid(k: int, max_x: int, max_y: int)
    requires
        0 <= k,
        0 <= max_x,
    ensures
        walk_x(k, 0, max_x) == k % (max_x + 1),
        walk_y(k, 0, max_x, max_y) == max_y - k / (max_x + 1),
{
    let w = max_x + 1;
    if k < w {
        lemma_fundamental_div_mod_converse(k, w, 0, k);
    } else {
        let j = k - w;
        vstd::arithmetic::div_mod::lemma_fundamental_div_mod(j, w);
        vstd::arithmetic::div_mod::lemma_mod_pos_bound(j, w);
        assert(k == (j / w + 1) * w + j % w) by (nonlinear_arith)
            requires k == j + w, j == w * (j / w) + j % w;
        lemma_fundamental_div_mod_converse(k, w, j / w + 1, j % w);
    }
}

/// Reading back the drawing of a glyph's pixels gives the same pixels, where
/// the drawing starts at column 0 (as it does for no pixels at all), its
/// cells can be counted in a `u32`, and the reader's row and column stay
/// within `i32`.
pub proof fn lemma_drawing_reads_back(pixels: Set<Point>)
    requires
        pixels.finite(),
        drawable(pixels),
        bounding_rect(pixels).x == 0,
        bounding_rect(pixels).x + bounding_rect(pixels).width < i32::MAX,
        bounding_rect(pixels).y > i32::MIN,
        (bounding_rect(pixels).width + 1) * (bounding_rect(pixels).height + 1) <= u32::MAX,
    ensures
        drawing(pixels).readable(),
        drawing(pixels).read_pixels() == pixels,
{
    let r = bounding_rect(pixels);
    crate::pixels::lemma_bounding_rect(pixels);
    let d = drawing(pixels);
    let width = (r.width + 1) as nat;
    let rows = (r.height + 1) as nat;
    let max_x = r.width as int;
    let max_y = r.y + r.height;
    assert(d.min_x == 0 && d.max_x == max_x && d.max_y == max_y && d.min_y == r.y);
    lemma_grid_cells(pixels, 0, max_y, width, rows);
    let pc = pixel_chars(d.text);
    assert(pc == Seq::new(width * rows, |k: int| grid_cell(pixels, 0, max_y, width, k)));
    assert(d.width() == width && d.height() == rows);
    assert forall|k: int| 0 <= k < pc.len() implies #[trigger] walk_x(k, 0, max_x) < i32::MAX && i32::MIN <= walk_y(
        k + 1,
        0,
        max_x,
        max_y,
    ) by {
        lemma_walk_grid(k, max_x, max_y);
        lemma_walk_grid(k + 1, max_x, max_y);
        vstd::arithmetic::div_mod::lemma_mod_pos_bound(k, width as int);
        assert((k + 1) / (width as int) <= rows as int) by {
            vstd::arithmetic::div_mod::lemma_div_is_ordered(k + 1, (width * rows) as int, width as int);
            vstd::arithmetic::div_mod::lemma_div_multiples_vanish(rows as int, width as int);
            vstd::arithmetic::mul::lemma_mul_is_commutative(width as int, rows as int);
        }
    }
    assert(d.readable());
    assert forall|p: Point| d.read_pixels().contains(p) <==> pixels.contains(p) by {
        if pixels.contains(p) {
            let line = max_y - p.y;
            let k = line * width + p.x;
            assert(0 <= line < rows);
            assert(0 <= p.x < width);
            lemma_fundamental_div_mod_converse(k, width as int, line, p.x as int);
            assert(k < width * rows) by (nonlinear_arith)
                requires k == line * width + p.x, 0 <= p.x < width, 0 <= line < rows;
            assert(0 <= k) by (nonlinear_arith)
                requires k == line * width + p.x, 0 <= p.x, 0 <= line;
            lemma_walk_grid(k, max_x, max_y);
            assert(walk_point(k, 0, max_x, max_y) == p);
            assert(pc[k] == 'X');
        }
        if d.read_pixels().contains(p) {
            let k = choose|k: int| 0 <= k < pc.len() && pc[k] == 'X' && #[trigger] walk_point(k, 0, max_x, max_y) == p;
            lemma_walk_grid(k, max_x, max_y);
            assert(pc[k] == grid_cell(pixels, 0, max_y, width, k));
        }
    }
    assert(d.read_pixels() =~= pixels);
}

// ---------------------------------------------------------------------------
// The file

/// The format version this module reads and writes.
pub const VERSION: &'static str = "dev";

/// The program named as the exporter of the files written here.
pub const EXPORTER: &'static str = "PixFont Studio dev build";

/// A project file: the font model with each glyph's pixels drawn as text.
/// Mappings and glyphs are listed in order, by codepoint and by name.
#[derive(Debug)]
pub struct File {
    pub version: String,
    pub exporter: Option<String>,
    pub metadata: Metadata,
    pub metrics: Metrics,
    pub alternates: IndexMap<String, String>,
    pub mappings: Vec<(u32, Mapping)>,
    pub glyphs: Vec<(String, Glyph)>,
}

#[derive(Debug)]
pub struct Metadata {
    pub name: String,
    pub family: Option<String>,
    pub weight: Option<String>,
    pub style: Option<String>,
    pub author: Option<String>,
    pub copyright: Option<String>,
    pub license: Option<String>,
    pub extra: IndexMap<String, String>,
}

#[derive(Debug, Clone)]
pub struct Metrics {
    pub ascender: i32,
    pub descender: i32,
    pub cap_height: i32,
    pub x_height: i32,
    pub mono_advance: Option<u32>,
    pub guidelines: Guidelines,
}

/// A codepoint's glyphs: just a default one, or a default one and named
/// alternates.
#[derive(Debug)]
pub enum Mapping {
    Single(String),
    Multiple { glyph: String, alternate: IndexMap<String, String> },
}

#[derive(Debug)]
pub struct Glyph {
    pub pixels: Pixels,
    pub advance: u32,
    pub guidelines: Guidelines,
    pub extra: IndexMap<String, String>,
}

#[derive(Debug, Clone)]
pub struct Guidelines {
    pub x: Vec<Guideline>,
    pub y: Vec<Guideline>,
}

#[derive(Debug, Clone)]
pub struct Guideline {
    pub name: String,
    pub position: i32,
}

pub enum MappingView {
    Single(Seq<char>),
    Multiple { glyph: Seq<char>, alternate: Seq<(Seq<char>, Seq<char>)> },
}

pub struct GlyphFileView {
    pub pixels: PixelsView,
    pub advance: u32,
    pub guidelines: GuidelinesView,
    pub extra: Seq<(Seq<char>, Seq<char>)>,
}

pub struct FileView {
    pub version: Seq<char>,
    pub exporter: Option<Seq<char>>,
    pub metadata: MetadataView,
    pub metrics: MetricsView,
    pub alternates: Seq<(Seq<char>, Seq<char>)>,
    pub mappings: Seq<(u32, MappingView)>,
    pub glyphs: Seq<(Seq<char>, GlyphFileView)>,
}

impl View for Guideline {
    type V = GuidelineView;

    open spec fn view(&self) -> GuidelineView {
        GuidelineView { name: self.name@, position: self.position }
    }
}

impl View for Guidelines {
    type V = GuidelinesView;

    open spec fn view(&self) -> GuidelinesView {
        GuidelinesView {
            x: self.x@.map_values(|g: Guideline| g@),
            y: self.y@.map_values(|g: Guideline| g@),
        }
    }
}

impl View for Metrics {
    type V = MetricsView;

    open spec fn view(&self) -> MetricsView {
        MetricsView {
            ascender: self.ascender,
            descender: self.descender,
            cap_height: self.cap_height,
            x_height: self.x_height,
            mono_advance: self.mono_advance,
            guidelines: self.guidelines@,
        }
    }
}

impl View for Metadata {
    type V = MetadataView;

    open spec fn view(&self) -> MetadataView {
        MetadataView {
            name: self.name@,
            family: crate::font::opt_string_view(self.family),
            weight: crate::font::opt_string_view(self.weight),
            style: crate::font::opt_string_view(self.style),
            author: crate::font::opt_string_view(self.author),
            copyright: crate::font::opt_string_view(self.copyright),
            license: crate::font::opt_string_view(self.license),
            extra: string_map_entries(self.extra),
        }
    }
}

impl View for Mapping {
    type V = MappingView;

    open spec fn view(&self) -> MappingView {
        match self {
            Mapping::Single(g) => MappingView::Single(g@),
            Mapping::Multiple { glyph, alternate } => MappingView::Multiple {
                glyph: glyph@,
                alternate: string_map_entries(*alternate),
            },
        }
    }
}

impl View for Glyph {
    type V = GlyphFileView;

    open spec fn view(&self) -> GlyphFileView {
        GlyphFileView {
            pixels: self.pixels@,
            advance: self.advance,
            guidelines: self.guidelines@,
            extra: string_map_entries(self.extra),
        }
    }
}

impl View for File {
    type V = FileView;

    open spec fn view(&self) -> FileView {
        FileView {
            version: self.version@,
            exporter: crate::font::opt_string_view(self.exporter),
            metadata: self.metadata@,
            metrics: self.metrics@,
            alternates: string_map_entries(self.alternates),
            mappings: self.mappings@.map_values(|e: (u32, Mapping)| (e.0, e.1@)),
            glyphs: self.glyphs@.map_values(|e: (String, Glyph)| (e.0@, e.1@)),
        }
    }
}

/// How a file stores a codepoint mapping: as a single glyph where it has no
/// alternates.
pub open spec fn mapping_of(m: CodepointMappingView) -> MappingView {
    if m.alternate.len() == 0 {
        MappingView::Single(m.glyph)
    } else {
        MappingView::Multiple { glyph: m.glyph, alternate: m.alternate }
    }
}

/// The codepoint mapping a file's mapping stands for.
pub open spec fn codepoint_mapping_of(m: MappingView) -> CodepointMappingView {
    match m {
        MappingView::Single(g) => CodepointMappingView { glyph: g, alternate: Seq::empty() },
        MappingView::Multiple { glyph, alternate } => CodepointMappingView { glyph, alternate },
    }
}

/// How a file stores a glyph: its name is the key it is listed under, and
/// its pixels are drawn.
pub open spec fn glyph_file_of(g: GlyphView) -> GlyphFileView {
    GlyphFileView { pixels: drawing(g.pixels), advance: g.advance, guidelines: g.guidelines, extra: g.extra }
}

/// The glyph named `name` that a file's glyph stands for.
pub open spec fn glyph_of(name: Seq<char>, g: GlyphFileView) -> GlyphView {
    GlyphView { name, pixels: g.pixels.read_pixels(), advance: g.advance, guidelines: g.guidelines, extra: g.extra }
}

/// Every glyph's pixels can be drawn.
pub open spec fn font_drawable(font: FontView) -> bool {
    forall|i: int| 0 <= i < font.glyphs.len() ==> drawable(#[trigger] font.glyphs[i].1.pixels)
}

/// The file that stores `font`.
pub open spec fn file_of(font: FontView) -> FileView {
    FileView {
        version: VERSION@,
        exporter: Some(EXPORTER@),
        metadata: font.metadata,
        metrics: font.metrics,
        alternates: font.alternates,
        mappings: font.mappings.map_values(|e: (u32, CodepointMappingView)| (e.0, mapping_of(e.1))),
        glyphs: font.glyphs.map_values(|e: (Seq<char>, GlyphView)| (e.0, glyph_file_of(e.1))),
    }
}

/// Every glyph's drawing can be read back.
pub open spec fn file_readable(file: FileView) -> bool {
    forall|i: int| 0 <= i < file.glyphs.len() ==> (#[trigger] file.glyphs[i]).1.pixels.readable()
}

/// The font a file stores: its mappings and glyphs inserted in order, so a
/// later entry with a repeated key replaces the value of an earlier one.
pub open spec fn font_of(file: FileView) -> FontView {
    FontView {
        metadata: file.metadata,
        metrics: file.metrics,
        alternates: file.alternates,
        mappings: map_insert_all(Seq::empty(), file.mappings.map_values(|e: (u32, MappingView)| (e.0, codepoint_mapping_of(e.1)))),
        glyphs: map_insert_all(Seq::empty(), file.glyphs.map_values(|e: (Seq<char>, GlyphFileView)| (e.0, glyph_of(e.0, e.1)))),
    }
}

impl Guideline {
    pub fn from_guideline(g: crate::font::Guideline) -> (r: Self)
        ensures
            r@ == g@,
    {
        Guideline { name: g.name, position: g.position }
    }

    pub fn into_guideline(self) -> (r: crate::font::Guideline)
        ensures
            r@ == self@,
    {
        crate::font::Guideline { name: self.name, position: self.position }
    }
}

fn lines_to_file(v: &Vec<crate::font::Guideline>) -> (r: Vec<Guideline>)
    ensures
        r@.map_values(|l: Guideline| l@) == v@.map_values(|l: crate::font::Guideline| l@),
{
    let mut out: Vec<Guideline> = Vec::new();
    let mut i: usize = 0;
    while i < v.len()
        invariant
            i <= v@.len(),
            out@.len() == i,
            forall|k: int| 0 <= k < i ==> (#[trigger] out@[k])@ == v@[k]@,
        decreases v.len() - i,
    {
        out.push(Guideline { name: v[i].name.clone(), position: v[i].position });
        i += 1;
    }
    assert(out@.map_values(|l: Guideline| l@) =~= v@.map_values(|l: crate::font::Guideline| l@));
    out
}

fn lines_from_file(v: &Vec<Guideline>) -> (r: Vec<crate::font::Guideline>)
    ensures
        r@.map_values(|l: crate::font::Guideline| l@) == v@.map_values(|l: Guideline| l@),
{
    let mut out: Vec<crate::font::Guideline> = Vec::new();
    let mut i: usize = 0;
    while i < v.len()
        invariant
            i <= v@.len(),
            out@.len() == i,
            forall|k: int| 0 <= k < i ==> (#[trigger] out@[k])@ == v@[k]@,
        decreases v.len() - i,
    {
        out.push(crate::font::Guideline { name: v[i].name.clone(), position: v[i].position });
        i += 1;
    }
    assert(out@.map_values(|l: crate::font::Guideline| l@) =~= v@.map_values(|l: Guideline| l@));
    out
}

impl Guidelines {
    pub fn from_guidelines(g: crate::font::Guidelines) -> (r: Self)
        ensures
            r@ == g@,
    {
        Guidelines { x: lines_to_file(&g.x), y: lines_to_file(&g.y) }
    }

    pub fn into_guidelines(self) -> (r: crate::font::Guidelines)
        ensures
            r@ == self@,
    {
        crate::font::Guidelines { x: lines_from_file(&self.x), y: lines_from_file(&self.y) }
    }
}

impl Metrics {
    pub fn from_metrics(m: crate::font::Metrics) -> (r: Self)
        ensures
            r@ == m@,
    {
        Metrics {
            ascender: m.ascender,
            descender: m.descender,
            cap_height: m.cap_height,
            x_height: m.x_height,
            mono_advance: m.mono_advance,
            guidelines: Guidelines::from_guidelines(m.guidelines),
        }
    }

    pub fn into_metrics(self) -> (r: crate::font::Metrics)
        ensures
            r@ == self@,
    {
        crate::font::Metrics {
            ascender: self.ascender,
            descender: self.descender,
            cap_height: self.cap_height,
            x_height: self.x_height,
            mono_advance: self.mono_advance,
            guidelines: self.guidelines.into_guidelines(),
        }
    }
}

impl Metadata {
    pub fn from_metadata(m: crate::font::Metadata) -> (r: Self)
        ensures
            r@ == m@,
    {
        Metadata {
            name: m.name,
            family: m.family,
            weight: m.weight,
            style: m.style,
            author: m.author,
            copyright: m.copyright,
            license: m.license,
            extra: m.extra,
        }
    }

    pub fn into_metadata(self) -> (r: crate::font::Metadata)
        ensures
            r@ == self@,
    {
        crate::font::Metadata {
            name: self.name,
            family: self.family,
            weight: self.weight,
            style: self.style,
            author: self.author,
            copyright: self.copyright,
            license: self.license,
            extra: self.extra,
        }
    }
}

impl Mapping {
    pub fn from_mapping(m: CodepointMapping) -> (r: Self)
        ensures
            r@ == mapping_of(m@),
    {
        if string_map_len(&m.alternate) == 0 {
            Mapping::Single(m.glyph)
        } else {
            Mapping::Multiple { glyph: m.glyph, alternate: m.alternate }
        }
    }

    pub fn into_mapping(self) -> (r: CodepointMapping)
        ensures
            r@ == codepoint_mapping_of(self@),
    {
        match self {
            Mapping::Single(glyph) => CodepointMapping { glyph, alternate: string_map_new() },
            Mapping::Multiple { glyph, alternate } => CodepointMapping { glyph, alternate },
        }
    }
}

impl Glyph {
    /// The file's record of `g`; its name is left to the key it is listed
    /// under.
    pub fn from_glyph(g: crate::font::Glyph) -> (r: Self)
        requires
            drawable(g@.pixels),
        ensures
            r@ == glyph_file_of(g@),
    {
        Glyph {
            pixels: Pixels::from_pixels(&g.pixels),
            advance: g.advance,
            guidelines: Guidelines::from_guidelines(g.guidelines),
            extra: g.extra,
        }
    }

    /// The glyph named `name` that this record stands for.
    pub fn into_glyph(self, name: String) -> (r: crate::font::Glyph)
        requires
            self@.pixels.readable(),
        ensures
            r@ == glyph_of(name@, self@),
    {
        crate::font::Glyph {
            name,
            pixels: self.pixels.to_pixels(),
            advance: self.advance,
            guidelines: self.guidelines.into_guidelines(),
            extra: self.extra,
        }
    }
}

impl File {
    /// The file that stores `font`.
    pub fn from_font(font: Font) -> (f: Self)
        requires
            font_drawable(font@),
        ensures
            f@ == file_of(font@),
    {
        let ghost orig = font@;
        let mut font = font;
        let n = mapping_map_len(&font.mappings);
        let mut mappings: Vec<(u32, Mapping)> = Vec::new();
        let mut i: usize = 0;
        while i < n
            invariant
                n == orig.mappings.len(),
                i <= n,
                font@.metadata == orig.metadata,
                font@.metrics == orig.metrics,
                font@.alternates == orig.alternates,
                font@.glyphs == orig.glyphs,
                mapping_map_entries(font.mappings).len() == n,
                forall|k: int| i <= k < n ==> #[trigger] mapping_map_entries(font.mappings)[k] == orig.mappings[k],
                mappings@.len() == i,
                forall|k: int|
                    0 <= k < i ==> (#[trigger] mappings@[k]).0 == orig.mappings[k].0 && mappings@[k].1@ == mapping_of(
                        orig.mappings[k].1,
                    ),
            decreases n - i,
        {
            let codepoint = *mapping_map_get_index(&font.mappings, i).0;
            let m = mapping_map_replace_value(&mut font.mappings, i, CodepointMapping { glyph: String::new(), alternate: string_map_new() });
            mappings.push((codepoint, Mapping::from_mapping(m)));
            i += 1;
        }
        let g = glyph_map_len(&font.glyphs);
        let mut glyphs: Vec<(String, Glyph)> = Vec::new();
        let mut j: usize = 0;
        while j < g
            invariant
                g == orig.glyphs.len(),
                font_drawable(orig),
                j <= g,
                font@.metadata == orig.metadata,
                font@.metrics == orig.metrics,
                font@.alternates == orig.alternates,
                mappings@.len() == orig.mappings.len(),
                forall|k: int|
                    0 <= k < mappings@.len() ==> (#[trigger] mappings@[k]).0 == orig.mappings[k].0 && mappings@[k].1@ == mapping_of(
                        orig.mappings[k].1,
                    ),
                glyph_map_entries(font.glyphs).len() == g,
                forall|k: int| j <= k < g ==> #[trigger] glyph_map_entries(font.glyphs)[k] == orig.glyphs[k],
                glyphs@.len() == j,
                forall|k: int|
                    0 <= k < j ==> (#[trigger] glyphs@[k]).0@ == orig.glyphs[k].0 && glyphs@[k].1@ == glyph_file_of(
                        orig.glyphs[k].1,
                    ),
            decreases g - j,
        {
            let name = glyph_map_get_index(&font.glyphs, j).0.clone();
            let glyph = glyph_map_replace_value(&mut font.glyphs, j, crate::font::Glyph::default());
            assert(drawable(orig.glyphs[j as int].1.pixels));
            glyphs.push((name, Glyph::from_glyph(glyph)));
            j += 1;
        }
        let f = File {
            version: VERSION.to_owned(),
            exporter: Some(EXPORTER.to_owned()),
            metadata: Metadata::from_metadata(font.metadata),
            metrics: Metrics::from_metrics(font.metrics),
            alternates: font.alternates,
            mappings,
            glyphs,
        };
        assert(f@.mappings =~= file_of(orig).mappings);
        assert(f@.glyphs =~= file_of(orig).glyphs);
        f
    }

    /// The font the file stores. Mappings and glyphs are inserted in order,
    /// so a later entry with a repeated key replaces an earlier one's value.
    pub fn into_font(self) -> (font: Font)
        requires
            file_readable(self@),
        ensures
            font@ == font_of(self@),
    {
        let ghost file = self@;
        let mut file_mappings = self.mappings;
        let mut file_glyphs = self.glyphs;
        let ghost cm = file.mappings.map_values(|e: (u32, MappingView)| (e.0, codepoint_mapping_of(e.1)));
        let ghost cg = file.glyphs.map_values(|e: (Seq<char>, GlyphFileView)| (e.0, glyph_of(e.0, e.1)));
        let mut mappings = mapping_map_new();
        let n = file_mappings.len();
        let mut i: usize = 0;
        assert(cm.take(0) =~= Seq::<(u32, CodepointMappingView)>::empty());
        while i < n
            invariant
                n == file.mappings.len(),
                file_mappings@.len() == n,
                cm == file.mappings.map_values(|e: (u32, MappingView)| (e.0, codepoint_mapping_of(e.1))),
                i <= n,
                forall|k: int| i <= k < n ==> (#[trigger] file_mappings@[k]).0 == file.mappings[k].0 && file_mappings@[k].1@
                    == file.mappings[k].1,
                mapping_map_entries(mappings) == map_insert_all(Seq::empty(), cm.take(i as int)),
            decreases n - i,
        {
            let (codepoint, m) = take_entry(&mut file_mappings, i, (0, Mapping::Single(String::new())));
            proof {
                lemma_map_insert_all_step(Seq::empty(), cm, i as int);
            }
            let _ = mapping_map_insert(&mut mappings, codepoint, m.into_mapping());
            i += 1;
        }
        assert(cm.take(n as int) =~= cm);
        let mut glyphs = glyph_map_new();
        let g = file_glyphs.len();
        let mut j: usize = 0;
        assert(cg.take(0) =~= Seq::<(Seq<char>, GlyphView)>::empty());
        while j < g
            invariant
                g == file.glyphs.len(),
                file_glyphs@.len() == g,
                file_readable(file),
                cg == file.glyphs.map_values(|e: (Seq<char>, GlyphFileView)| (e.0, glyph_of(e.0, e.1))),
                j <= g,
                forall|k: int| j <= k < g ==> (#[trigger] file_glyphs@[k]).0@ == file.glyphs[k].0 && file_glyphs@[k].1@
                    == file.glyphs[k].1,
                glyph_map_entries(glyphs) == map_insert_all(Seq::empty(), cg.take(j as int)),
            decreases g - j,
        {
            let filler = Glyph {
                pixels: Pixels { min_x: 0, min_y: 0, max_x: 0, max_y: 0, pixels: String::new() },
                advance: 0,
                guidelines: Guidelines { x: Vec::new(), y: Vec::new() },
                extra: string_map_new(),
            };
            let (name, glyph) = take_entry(&mut file_glyphs, j, (String::new(), filler));
            assert(file.glyphs[j as int].1.pixels.readable());
            proof {
                lemma_map_insert_all_step(Seq::empty(), cg, j as int);
            }
            let key = name.clone();
            let _ = glyph_map_insert(&mut glyphs, key, glyph.into_glyph(name));
            j += 1;
        }
        assert(cg.take(g as int) =~= cg);
        Font {
            metadata: self.metadata.into_metadata(),
            metrics: self.metrics.into_metrics(),
            alternates: self.alternates,
            mappings,
            glyphs,
        }
    }
}

/// Inserting the entries of a map whose keys are all different, in order,
/// into an empty map gives the same map.
proof fn lemma_insert_all_unique<K, V>(s: Seq<(K, V)>)
    requires
        crate::maps::keys_unique(s),
    ensures
        map_insert_all(Seq::empty(), s) == s,
    decreases s.len(),
{
    if s.len() > 0 {
        let t = s.drop_last();
        assert(crate::maps::keys_unique(t));
        lemma_insert_all_unique(t);
        assert(!crate::maps::has_key(t, s.last().0)) by {
            if crate::maps::has_key(t, s.last().0) {
                let j = choose|j: int| 0 <= j < t.len() && #[trigger] t[j].0 == s.last().0;
                assert(s[j].0 == s[s.len() - 1].0);
            }
        }
        assert(t.push(s.last()) =~= s);
    }
}

/// Saving pixels in a project file and loading them back gives the same
/// pixels: `Pixels::from_pixels` draws them, and `Pixels::to_pixels` reads
/// the drawing back as `p`. This holds where the drawing starts at column 0
/// (as it does for no pixels at all), each coordinate is below `i32::MAX`,
/// the bottom row is above `i32::MIN` and the drawing's cells can be counted
/// in a `u32`; outside that, the loader reads the rows from column 0, or its
/// row or cell count overflows.
pub proof fn lemma_pixels_read_back(p: &crate::pixels::Pixels)
    requires
        drawable(p@),
        bounding_rect(p@).x == 0,
        bounding_rect(p@).width < i32::MAX,
        bounding_rect(p@).y > i32::MIN,
        (bounding_rect(p@).width + 1) * (bounding_rect(p@).height + 1) <= u32::MAX,
    ensures
        drawing(p@).readable(),
        drawing(p@).read_pixels() == p@,
{
    crate::pixels::lemma_pixels_finite(p);
    lemma_drawing_reads_back(p@);
}

/// A glyph whose drawing reads back as its pixels.
pub open spec fn glyph_keeps_pixels(g: GlyphView) -> bool {
    let r = bounding_rect(g.pixels);
    &&& g.pixels.finite()
    &&& drawable(g.pixels)
    &&& r.x == 0
    &&& r.x + r.width < i32::MAX
    &&& r.y > i32::MIN
    &&& (r.width + 1) * (r.height + 1) <= u32::MAX
}

/// Writing a font to a project file and reading it back gives the same font,
/// where each glyph is stored under its own name and each glyph's drawing
/// starts at column 0 (see `lemma_drawing_reads_back`).
pub proof fn lemma_file_reads_back(font: FontView)
    requires
        crate::maps::keys_unique(font.mappings),
        crate::maps::keys_unique(font.glyphs),
        forall|i: int| 0 <= i < font.glyphs.len() ==> (#[trigger] font.glyphs[i]).1.name == font.glyphs[i].0,
        forall|i: int| 0 <= i < font.glyphs.len() ==> glyph_keeps_pixels(#[trigger] font.glyphs[i].1),
    ensures
        file_readable(file_of(font)),
        font_of(file_of(font)) == font,
{
    let file = file_of(font);
    assert forall|i: int| 0 <= i < file.glyphs.len() implies (#[trigger] file.glyphs[i]).1.pixels.readable() by {
        lemma_drawing_reads_back(font.glyphs[i].1.pixels);
    }
    let cm = file.mappings.map_values(|e: (u32, MappingView)| (e.0, codepoint_mapping_of(e.1)));
    assert forall|i: int| 0 <= i < cm.len() implies #[trigger] cm[i] == font.mappings[i] by {
        let m = font.mappings[i].1;
        if m.alternate.len() == 0 {
            assert(m.alternate =~= Seq::<(Seq<char>, Seq<char>)>::empty());
        }
    }
    assert(cm =~= font.mappings);
    lemma_insert_all_unique(font.mappings);
    let cg = file.glyphs.map_values(|e: (Seq<char>, GlyphFileView)| (e.0, glyph_of(e.0, e.1)));
    assert forall|i: int| 0 <= i < cg.len() implies #[trigger] cg[i] == font.glyphs[i] by {
        lemma_drawing_reads_back(font.glyphs[i].1.pixels);
    }
    assert(cg =~= font.glyphs);
    lemma_insert_all_unique(font.glyphs);
}

/// Whether `pixels` can be drawn; see `drawable`.
pub fn pixels_drawable(pixels: &crate::pixels::Pixels) -> (r: bool)
    ensures
        r == drawable(pixels@),
{
    let points = pixels.pixels();
    let mut i: usize = 0;
    while i < points.len()
        invariant
            points@.to_set() == pixels@,
            i <= points@.len(),
            forall|k: int| 0 <= k < i ==> (#[trigger] points@[k]).x < i32::MAX && points@[k].y < i32::MAX,
        decreases points.len() - i,
    {
        if points[i].x == 0x7fff_ffff || points[i].y == 0x7fff_ffff {
            proof {
                assert(pixels@.contains(points@[i as int]));
            }
            return false;
        }
        i += 1;
    }
    assert(fits_bounding_rect(pixels@)) by {
        assert forall|p: Point| #[trigger] pixels@.contains(p) implies p.x < i32::MAX && p.y < i32::MAX by {
            let k = choose|k: int| 0 <= k < points@.len() && points@[k] == p;
        }
    }
    let rect = pixels.rect();
    rect.width <= 0x7fff_ffff && rect.height <= 0x7fff_ffff
}

impl File {
    /// Whether every glyph's drawing can be read back; see `file_readable`.
    pub fn is_readable(&self) -> (r: bool)
        ensures
            r == file_readable(self@),
    {
        let mut i: usize = 0;
        while i < self.glyphs.len()
            invariant
                i <= self.glyphs@.len(),
                forall|k: int| 0 <= k < i ==> (#[trigger] self@.glyphs[k]).1.pixels.readable(),
            decreases self.glyphs.len() - i,
        {
            if !self.glyphs[i].1.pixels.is_readable() {
                assert(!self@.glyphs[i as int].1.pixels.readable());
                return false;
            }
            i += 1;
        }
        true
    }
}

/// Whether every glyph of `font` can be drawn; see `font_drawable`.
pub fn font_is_drawable(font: &Font) -> (r: bool)
    ensures
        r == font_drawable(font@),
{
    let n = glyph_map_len(&font.glyphs);
    let mut i: usize = 0;
    while i < n
        invariant
            n == font@.glyphs.len(),
            i <= n,
            forall|k: int| 0 <= k < i ==> drawable(#[trigger] font@.glyphs[k].1.pixels),
        decreases n - i,
    {
        let (_, g) = glyph_map_get_index(&font.glyphs, i);
        if !pixels_drawable(&g.pixels) {
            assert(!drawable(font@.glyphs[i as int].1.pixels));
            return false;
        }
        i += 1;
    }
    true
}

} // verus!
