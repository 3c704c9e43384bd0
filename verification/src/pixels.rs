//! A glyph's pixels: the set of grid points that are on.
use vstd::prelude::*;

use crate::geometry::{Point, Rect, Size};

verus! {

/// `v` is the least `x` of a point in `s`.
pub open spec fn is_min_x(s: Set<Point>, v: i32) -> bool {
    &&& exists|p: Point| #[trigger] s.contains(p) && p.x == v
    &&& forall|p: Point| #[trigger] s.contains(p) ==> v <= p.x
}

/// `v` is the greatest `x` of a point in `s`.
pub open spec fn is_max_x(s: Set<Point>, v: i32) -> bool {
    &&& exists|p: Point| #[trigger] s.contains(p) && p.x == v
    &&& forall|p: Point| #[trigger] s.contains(p) ==> p.x <= v
}

/// `v` is the least `y` of a point in `s`.
pub open spec fn is_min_y(s: Set<Point>, v: i32) -> bool {
    &&& exists|p: Point| #[trigger] s.contains(p) && p.y == v
    &&& forall|p: Point| #[trigger] s.contains(p) ==> v <= p.y
}

/// `v` is the greatest `y` of a point in `s`.
pub open spec fn is_max_y(s: Set<Point>, v: i32) -> bool {
    &&& exists|p: Point| #[trigger] s.contains(p) && p.y == v
    &&& forall|p: Point| #[trigger] s.contains(p) ==> p.y <= v
}

pub open spec fn min_x_of(s: Set<Point>) -> i32 {
    choose|v: i32| is_min_x(s, v)
}

pub open spec fn max_x_of(s: Set<Point>) -> i32 {
    choose|v: i32| is_max_x(s, v)
}

pub open spec fn min_y_of(s: Set<Point>) -> i32 {
    choose|v: i32| is_min_y(s, v)
}

pub open spec fn max_y_of(s: Set<Point>) -> i32 {
    choose|v: i32| is_max_y(s, v)
}

/// No point of `s` lies on the last column or row of the `i32` grid, so the
/// bounding rectangle's right and top edges are representable.
pub open spec fn fits_bounding_rect(s: Set<Point>) -> bool {
    forall|p: Point| #[trigger] s.contains(p) ==> p.x < i32::MAX && p.y < i32::MAX
}

/// The smallest rectangle that holds every point of `s`; the zero rectangle
/// when `s` is empty.
pub open spec fn bounding_rect(s: Set<Point>) -> Rect {
    if s.is_empty() {
        Rect { x: 0, y: 0, width: 0, height: 0 }
    } else {
        Rect {
            x: min_x_of(s),
            y: min_y_of(s),
            width: (max_x_of(s) + 1 - min_x_of(s)) as u32,
            height: (max_y_of(s) + 1 - min_y_of(s)) as u32,
        }
    }
}

proof fn lemma_extrema_unique(s: Set<Point>, lx: i32, ly: i32, hx: i32, hy: i32)
    requires
        is_min_x(s, lx),
        is_min_y(s, ly),
        is_max_x(s, hx),
        is_max_y(s, hy),
    ensures
        min_x_of(s) == lx,
        min_y_of(s) == ly,
        max_x_of(s) == hx,
        max_y_of(s) == hy,
{
    let a = min_x_of(s);
    let pa = choose|p: Point| s.contains(p) && p.x == a;
    let pl = choose|p: Point| s.contains(p) && p.x == lx;
    assert(a <= pl.x && lx <= pa.x);
    let b = min_y_of(s);
    let pb = choose|p: Point| s.contains(p) && p.y == b;
    let pm = choose|p: Point| s.contains(p) && p.y == ly;
    assert(b <= pm.y && ly <= pb.y);
    let c = max_x_of(s);
    let pc = choose|p: Point| s.contains(p) && p.x == c;
    let ph = choose|p: Point| s.contains(p) && p.x == hx;
    assert(pc.x <= hx && ph.x <= c);
    let d = max_y_of(s);
    let pd = choose|p: Point| s.contains(p) && p.y == d;
    let pk = choose|p: Point| s.contains(p) && p.y == hy;
    assert(pd.y <= hy && pk.y <= d);
}

/// `s` with the pixel at `p` set to `on`.
pub open spec fn with_pixel(s: Set<Point>, p: Point, on: bool) -> Set<Point> {
    if on { s.insert(p) } else { s.remove(p) }
}

/// `s` with the pixel at `p` flipped.
pub open spec fn toggled(s: Set<Point>, p: Point) -> Set<Point> {
    if s.contains(p) { s.remove(p) } else { s.insert(p) }
}

/// A pixel reads back as it was last set, and setting it leaves the other
/// pixels as they were.
pub proof fn lemma_set_then_get(s: Set<Point>, p: Point, on: bool, q: Point)
    ensures
        with_pixel(s, p, on).contains(q) == if q == p { on } else { s.contains(q) },
{
}

/// Toggling a pixel twice leaves the pixels as they were.
pub proof fn lemma_toggle_twice(s: Set<Point>, p: Point)
    ensures
        toggled(toggled(s, p), p) == s,
{
    assert(toggled(toggled(s, p), p) =~= s);
}

/// The position of cell `j` of a grid `w` cells wide and `h` high given
/// row by row from the top, whose bottom-left cell is at `origin`.
pub open spec fn grid_pos(j: int, w: int, h: int, origin: Point) -> Point {
    Point { x: (origin.x + j % w) as i32, y: (origin.y + (h - 1 - j / w)) as i32 }
}

/// The cells of such a grid that are on.
pub open spec fn grid_pixels(cells: Seq<bool>, w: int, h: int, origin: Point) -> Set<Point> {
    Set::new(|q: Point| exists|j: int| 0 <= j < cells.len() && cells[j] && q == grid_pos(j, w, h, origin))
}

/// The set of pixels that are on.
#[derive(Debug)]
pub struct Pixels {
    pixels: Vec<Point>,
}

impl View for Pixels {
    type V = Set<Point>;

    closed spec fn view(&self) -> Set<Point> {
        self.pixels@.to_set()
    }
}

/// The pixels that are on are finitely many.
pub proof fn lemma_pixels_finite(p: &Pixels)
    ensures
        p@.finite(),
{
    vstd::seq_lib::seq_to_set_is_finite(p.pixels@);
}

impl Default for Pixels {
    fn default() -> (p: Self)
        ensures
            p@ == Set::<Point>::empty(),
    {
        Self::with_capacity(0)
    }
}

impl Clone for Pixels {
    fn clone(&self) -> (p: Self)
        ensures
            p@ == self@,
    {
        proof {
            use_type_invariant(self);
        }
        Pixels { pixels: self.pixels.clone() }
    }
}

impl Pixels {
    #[verifier::type_invariant]
    closed spec fn no_repeats(self) -> bool {
        self.pixels@.no_duplicates()
    }

    pub fn new() -> (p: Self)
        ensures
            p@ == Set::<Point>::empty(),
    {
        Self::with_capacity(128)
    }

    pub fn with_capacity(size: usize) -> (p: Self)
        ensures
            p@ == Set::<Point>::empty(),
    {
        let p = Self { pixels: Vec::with_capacity(size) };
        assert(p.pixels@.to_set() =~= Set::<Point>::empty());
        p
    }

    /// The set holding exactly the given points.
    pub fn from_points(points: Vec<Point>) -> (p: Self)
        ensures
            p@ == points@.to_set(),
    {
        let mut out = Self::with_capacity(points.len());
        let mut i: usize = 0;
        while i < points.len()
            invariant
                i <= points.len(),
                out@ == points@.take(i as int).to_set(),
            decreases points.len() - i,
        {
            out.set(points[i], true);
            assert(points@.take(i + 1) =~= points@.take(i as int).push(points@[i as int]));
            proof {
                points@.take(i as int).lemma_push_to_set_commute(points@[i as int]);
            }
            i += 1;
        }
        assert(points@.take(points.len() as int) =~= points@);
        out
    }

    /// The pixels of a grid of `size.width` by `size.height` cells given row
    /// by row, top row first, whose bottom-left cell is at `origin`: cell `j`
    /// is on where `pixels[j]` is.
    pub fn with_pixels(pixels: Vec<bool>, size: Size, origin: Point) -> (p: Self)
        requires
            size.width > 0,
            pixels@.len() == size.width * size.height,
            origin.x + size.width - 1 <= i32::MAX,
            origin.y + size.height - 1 <= i32::MAX,
        ensures
            p@ == grid_pixels(pixels@, size.width as int, size.height as int, origin),
    {
        let ghost w = size.width as int;
        let ghost h = size.height as int;
        let mut out = Self::with_capacity(pixels.len());
        let mut row: u32 = 0;
        let mut col: u32 = 0;
        let mut k: usize = 0;
        proof {
            vstd::arithmetic::div_mod::lemma_fundamental_div_mod_converse(0, w, 0, 0);
            assert(out@ =~= Set::new(|q: Point| exists|j: int| 0 <= j < 0 && pixels@[j] && q == grid_pos(j, w, h, origin)));
        }
        while k < pixels.len()
            invariant
                w == size.width,
                h == size.height,
                w > 0,
                pixels@.len() == w * h,
                origin.x + w - 1 <= i32::MAX,
                origin.y + h - 1 <= i32::MAX,
                k <= pixels@.len(),
                col < w,
                col == (k as int) % w,
                row == (k as int) / w,
                out@ == Set::new(|q: Point| exists|j: int| 0 <= j < k && pixels@[j] && q == grid_pos(j, w, h, origin)),
            decreases pixels.len() - k,
        {
            assert(row < h) by {
                vstd::arithmetic::div_mod::lemma_div_is_ordered(k as int, w * h, w);
                vstd::arithmetic::div_mod::lemma_div_multiples_vanish(h, w);
                vstd::arithmetic::div_mod::lemma_div_is_ordered(k as int, w * h - 1, w);
                assert(w * h - 1 == w * (h - 1) + (w - 1)) by (nonlinear_arith);
                vstd::arithmetic::div_mod::lemma_fundamental_div_mod_converse(w * h - 1, w, h - 1, w - 1);
            }
            let x = ((origin.x as i64) + (col as i64)) as i32;
            let y = ((origin.y as i64) + ((size.height - 1 - row) as i64)) as i32;
            if pixels[k] {
                out.set(Point::new(x, y), true);
            }
            proof {
                assert(Point { x, y } == grid_pos(k as int, w, h, origin));
                assert(out@ =~= Set::new(|q: Point| exists|j: int| 0 <= j < k + 1 && pixels@[j] && q == grid_pos(j, w, h, origin)));
            }
            if col + 1 == size.width {
                proof {
                    vstd::arithmetic::div_mod::lemma_fundamental_div_mod(k as int, w);
                    assert(k + 1 == (row + 1) * w + 0) by (nonlinear_arith)
                        requires k == w * row + (w - 1);
                    vstd::arithmetic::div_mod::lemma_fundamental_div_mod_converse(k + 1, w, row + 1, 0);
                }
                col = 0;
                row = row + 1;
            } else {
                proof {
                    vstd::arithmetic::div_mod::lemma_fundamental_div_mod(k as int, w);
                    assert(k + 1 == row * w + (col + 1)) by (nonlinear_arith)
                        requires k == w * row + col;
                    vstd::arithmetic::div_mod::lemma_fundamental_div_mod_converse(k + 1, w, row as int, col + 1);
                }
                col = col + 1;
            }
            k += 1;
        }
        out
    }

    pub fn size(&self) -> (s: Size)
        requires
            fits_bounding_rect(self@),
        ensures
            s.width == bounding_rect(self@).width,
            s.height == bounding_rect(self@).height,
    {
        self.rect().size()
    }

    /// The bounding rectangle of the pixels that are on.
    pub fn rect(&self) -> (r: Rect)
        requires
            fits_bounding_rect(self@),
        ensures
            r == bounding_rect(self@),
            !self@.is_empty() ==> {
                &&& is_min_x(self@, r.x)
                &&& is_min_y(self@, r.y)
                &&& is_max_x(self@, (r.x + r.width - 1) as i32)
                &&& is_max_y(self@, (r.y + r.height - 1) as i32)
            },
    {
        match self.rect_impl() {
            Some(r) => r,
            None => Rect::zero(),
        }
    }

    fn rect_impl(&self) -> (r: Option<Rect>)
        requires
            fits_bounding_rect(self@),
        ensures
            self@.is_empty() <==> r is None,
            r matches Some(rect) ==> {
                &&& rect == bounding_rect(self@)
                &&& is_min_x(self@, rect.x)
                &&& is_min_y(self@, rect.y)
                &&& is_max_x(self@, (rect.x + rect.width - 1) as i32)
                &&& is_max_y(self@, (rect.y + rect.height - 1) as i32)
            },
    {
        let n = self.pixels.len();
        if n == 0 {
            assert(self@ =~= Set::<Point>::empty());
            return None;
        }
        let ghost s = self@;
        let mut lx = self.pixels[0].x;
        let mut ly = self.pixels[0].y;
        let mut hx = self.pixels[0].x;
        let mut hy = self.pixels[0].y;
        let mut i: usize = 1;
        while i < n
            invariant
                1 <= i <= n,
                n == self.pixels@.len(),
                exists|j: int| 0 <= j < i && #[trigger] self.pixels@[j].x == lx,
                exists|j: int| 0 <= j < i && #[trigger] self.pixels@[j].y == ly,
                exists|j: int| 0 <= j < i && #[trigger] self.pixels@[j].x == hx,
                exists|j: int| 0 <= j < i && #[trigger] self.pixels@[j].y == hy,
                forall|j: int| 0 <= j < i ==> lx <= #[trigger] self.pixels@[j].x <= hx,
                forall|j: int| 0 <= j < i ==> ly <= #[trigger] self.pixels@[j].y <= hy,
            decreases n - i,
        {
            let p = self.pixels[i];
            if p.x < lx {
                lx = p.x;
            }
            if p.y < ly {
                ly = p.y;
            }
            if p.x > hx {
                hx = p.x;
            }
            if p.y > hy {
                hy = p.y;
            }
            i += 1;
        }
        proof {
            assert forall|p: Point| #[trigger] s.contains(p) implies lx <= p.x <= hx && ly <= p.y <= hy by {
                let j = choose|j: int| 0 <= j < n && self.pixels@[j] == p;
                assert(self.pixels@[j] == p);
            }
            let j0 = choose|j: int| 0 <= j < n && #[trigger] self.pixels@[j].x == lx;
            assert(s.contains(self.pixels@[j0]));
            let j1 = choose|j: int| 0 <= j < n && #[trigger] self.pixels@[j].y == ly;
            assert(s.contains(self.pixels@[j1]));
            let j2 = choose|j: int| 0 <= j < n && #[trigger] self.pixels@[j].x == hx;
            assert(s.contains(self.pixels@[j2]));
            let j3 = choose|j: int| 0 <= j < n && #[trigger] self.pixels@[j].y == hy;
            assert(s.contains(self.pixels@[j3]));
            assert(is_min_x(s, lx));
            assert(is_min_y(s, ly));
            assert(is_max_x(s, hx));
            assert(is_max_y(s, hy));
            lemma_extrema_unique(s, lx, ly, hx, hy);
            assert(s.contains(self.pixels@[0]));
            assert(!s.is_empty());
        }
        let bottom_left = Point::new(lx, ly);
        let top_right = Point::new(hx + 1, hy + 1);
        Some(Rect::with_points(bottom_left, top_right))
    }

    /// Whether the pixel at `point` is on.
    pub fn get(&self, point: Point) -> (on: bool)
        ensures
            on == self@.contains(point),
    {
        let mut i: usize = 0;
        while i < self.pixels.len()
            invariant
                i <= self.pixels@.len(),
                forall|j: int| 0 <= j < i ==> self.pixels@[j] != point,
            decreases self.pixels.len() - i,
        {
            if self.pixels[i] == point {
                return true;
            }
            i += 1;
        }
        false
    }

    fn position(&self, point: Point) -> (r: Option<usize>)
        ensures
            r matches Some(i) ==> i < self.pixels@.len() && self.pixels@[i as int] == point,
            r is None ==> !self.pixels@.contains(point),
    {
        let mut i: usize = 0;
        while i < self.pixels.len()
            invariant
                i <= self.pixels@.len(),
                forall|j: int| 0 <= j < i ==> self.pixels@[j] != point,
            decreases self.pixels.len() - i,
        {
            if self.pixels[i] == point {
                return Some(i);
            }
            i += 1;
        }
        None
    }

    /// Turns the pixel at `point` on or off. Returns whether the set changed:
    /// on turning on, whether it was off; on turning off, whether it was on.
    pub fn set(&mut self, point: Point, set: bool) -> (changed: bool)
        ensures
            final(self)@ == with_pixel(old(self)@, point, set),
            changed == if set { !old(self)@.contains(point) } else { old(self)@.contains(point) },
    {
        proof {
            use_type_invariant(&*self);
        }
        let ghost before = self.pixels@;
        match self.position(point) {
            Some(i) => {
                if set {
                    assert(before.to_set().insert(point) =~= before.to_set());
                    false
                } else {
                    let mut pixels: Vec<Point> = Vec::new();
                    std::mem::swap(&mut pixels, &mut self.pixels);
                    pixels.swap_remove(i);
                    proof {
                        lemma_swap_remove_set(before, i as int);
                    }
                    self.pixels = pixels;
                    true
                }
            },
            None => {
                if set {
                    let mut pixels: Vec<Point> = Vec::new();
                    std::mem::swap(&mut pixels, &mut self.pixels);
                    pixels.push(point);
                    proof {
                        before.lemma_push_to_set_commute(point);
                        assert(pixels@ == before.push(point));
                        assert forall|a: int, b: int|
                            0 <= a < b < pixels@.len() implies pixels@[a] != pixels@[b] by {
                            if b == before.len() {
                                assert(before.contains(before[a]));
                            }
                        }
                    }
                    self.pixels = pixels;
                    true
                } else {
                    assert(before.to_set().remove(point) =~= before.to_set());
                    false
                }
            },
        }
    }

    /// Flips the pixel at `point`. The set always changes, so this returns `true`.
    pub fn toggle(&mut self, point: Point) -> (changed: bool)
        ensures
            final(self)@ == toggled(old(self)@, point),
            changed,
    {
        let on = self.get(point);
        self.set(point, !on)
    }

    /// The pixels that are on, each once, in no particular order.
    pub fn pixels(&self) -> (points: Vec<Point>)
        ensures
            points@.to_set() == self@,
            points@.no_duplicates(),
    {
        proof {
            use_type_invariant(self);
        }
        self.pixels.clone()
    }
}

proof fn lemma_swap_remove_set(s: Seq<Point>, i: int)
    requires
        s.no_duplicates(),
        0 <= i < s.len(),
    ensures
        ({
            let t = s.update(i, s.last()).drop_last();
            &&& t.to_set() == s.to_set().remove(s[i])
            &&& t.no_duplicates()
        }),
{
    let t = s.update(i, s.last()).drop_last();
    assert forall|p: Point| t.contains(p) <==> s.to_set().remove(s[i]).contains(p) by {
        if t.contains(p) {
            let k = choose|k: int| 0 <= k < t.len() && t[k] == p;
            if k == i {
                assert(s[s.len() - 1] == p);
            } else {
                assert(s[k] == p);
            }
            assert(s.contains(p));
        }
        if s.to_set().remove(s[i]).contains(p) {
            let k = choose|k: int| 0 <= k < s.len() && s[k] == p;
            if k == s.len() - 1 {
                assert(t[i] == p);
            } else {
                assert(t[k] == p);
            }
        }
    }
    assert(t.to_set() =~= s.to_set().remove(s[i]));
}

/// A finite non-empty set of points has a point where `f` is least and one
/// where it is greatest.
proof fn lemma_finite_extrema(s: Set<Point>, f: spec_fn(Point) -> int)
    requires
        s.finite(),
        !s.is_empty(),
    ensures
        exists|p: Point| s.contains(p) && forall|q: Point| s.contains(q) ==> f(p) <= f(q),
        exists|p: Point| s.contains(p) && forall|q: Point| s.contains(q) ==> f(q) <= f(p),
    decreases s.len(),
{
    let a = s.choose();
    let t = s.remove(a);
    if t.is_empty() {
        assert forall|q: Point| s.contains(q) implies q == a by {
            if q != a {
                assert(t.contains(q));
            }
        }
        assert(s.contains(a) && forall|q: Point| s.contains(q) ==> f(a) <= f(q));
        assert(s.contains(a) && forall|q: Point| s.contains(q) ==> f(q) <= f(a));
    } else {
        lemma_finite_extrema(t, f);
        let lo = choose|p: Point| t.contains(p) && forall|q: Point| t.contains(q) ==> f(p) <= f(q);
        let hi = choose|p: Point| t.contains(p) && forall|q: Point| t.contains(q) ==> f(q) <= f(p);
        let m = if f(a) <= f(lo) { a } else { lo };
        let n = if f(hi) <= f(a) { a } else { hi };
        assert forall|q: Point| s.contains(q) implies f(m) <= f(q) by {
            if q != a {
                assert(t.contains(q));
            }
        }
        assert forall|q: Point| s.contains(q) implies f(q) <= f(n) by {
            if q != a {
                assert(t.contains(q));
            }
        }
        assert(s.contains(m) && forall|q: Point| s.contains(q) ==> f(m) <= f(q));
        assert(s.contains(n) && forall|q: Point| s.contains(q) ==> f(q) <= f(n));
    }
}

/// Every point of a finite set lies in its bounding rectangle, whose edges
/// touch points of the set.
pub proof fn lemma_bounding_rect(s: Set<Point>)
    requires
        s.finite(),
        fits_bounding_rect(s),
    ensures
        !s.is_empty() ==> {
            &&& is_min_x(s, bounding_rect(s).x)
            &&& is_min_y(s, bounding_rect(s).y)
            &&& is_max_x(s, (bounding_rect(s).x + bounding_rect(s).width - 1) as i32)
            &&& is_max_y(s, (bounding_rect(s).y + bounding_rect(s).height - 1) as i32)
        },
        forall|p: Point|
            #[trigger] s.contains(p) ==> bounding_rect(s).x <= p.x < bounding_rect(s).x + bounding_rect(s).width
                && bounding_rect(s).y <= p.y < bounding_rect(s).y + bounding_rect(s).height,
{
    if !s.is_empty() {
        let fx = |p: Point| p.x as int;
        let fy = |p: Point| p.y as int;
        lemma_finite_extrema(s, fx);
        lemma_finite_extrema(s, fy);
        let p0 = choose|p: Point| s.contains(p) && forall|q: Point| s.contains(q) ==> fx(p) <= fx(q);
        let p1 = choose|p: Point| s.contains(p) && forall|q: Point| s.contains(q) ==> fy(p) <= fy(q);
        let p2 = choose|p: Point| s.contains(p) && forall|q: Point| s.contains(q) ==> fx(q) <= fx(p);
        let p3 = choose|p: Point| s.contains(p) && forall|q: Point| s.contains(q) ==> fy(q) <= fy(p);
        assert(is_min_x(s, p0.x));
        assert(is_min_y(s, p1.y));
        assert(is_max_x(s, p2.x));
        assert(is_max_y(s, p3.y));
        lemma_extrema_unique(s, p0.x, p1.y, p2.x, p3.y);
    }
}

} // verus!
