//! Drawing tools of the glyph editor and the pixel changes they make.
use vstd::prelude::*;

use crate::geometry::Point;
use crate::pixels::Pixels;

verus! {

/// The tool the editor draws with.
#[derive(Debug, Clone, Copy, PartialEq, Eq, Structural)]
pub enum Tool {
    Pen,
    Line,
    Rectangle,
    Fill,
    Eraser,
    Pan,
}

/// Pixels to turn on and pixels to turn off.
#[derive(Debug)]
pub struct Delta {
    pub add: Pixels,
    pub remove: Pixels,
}

impl Default for Delta {
    fn default() -> (d: Self)
        ensures
            d.add@ == Set::<Point>::empty(),
            d.remove@ == Set::<Point>::empty(),
    {
        Delta { add: Pixels::new(), remove: Pixels::new() }
    }
}

impl Clone for Delta {
    fn clone(&self) -> (d: Self)
        ensures
            d.add@ == self.add@,
            d.remove@ == self.remove@,
    {
        Delta { add: self.add.clone(), remove: self.remove.clone() }
    }
}

/// What a pointer drag with the current tool has drawn so far.
///
/// A pan drag's offsets are screen coordinates kept by the widget; here the
/// pan state only records that a pan is in progress.
#[derive(Debug)]
pub enum ToolState {
    Idle,
    Pen { delta: Delta },
    Line { start: Point, end: Point },
    Rectangle { start: Point, end: Point, fill: bool },
    Fill { point: Point },
    Eraser { delta: Delta },
    Pan,
}

impl Default for ToolState {
    fn default() -> (s: Self)
        ensures
            s is Idle,
    {
        ToolState::Idle
    }
}

pub open spec fn min_i32(a: i32, b: i32) -> i32 {
    if a <= b { a } else { b }
}

pub open spec fn max_i32(a: i32, b: i32) -> i32 {
    if a <= b { b } else { a }
}

/// The points of the line from `start` to `end`.
pub open spec fn line_set(start: Point, end: Point) -> Set<Point> {
    Set::new(|p: Point| exists|i: int| 0 <= i < line_len(start, end) && line_point(start, end, i) == p)
}

/// Every point of the rectangle with corners `start` and `end`.
pub open spec fn filled_rect(start: Point, end: Point) -> Set<Point> {
    Set::new(|p: Point|
        min_i32(start.x, end.x) <= p.x <= max_i32(start.x, end.x)
        && min_i32(start.y, end.y) <= p.y <= max_i32(start.y, end.y))
}

/// The border of the rectangle with corners `start` and `end`.
pub open spec fn rect_outline(start: Point, end: Point) -> Set<Point> {
    Set::new(|p: Point|
        (min_i32(start.x, end.x) <= p.x <= max_i32(start.x, end.x) && (p.y == start.y || p.y == end.y))
        || (min_i32(start.y, end.y) <= p.y <= max_i32(start.y, end.y) && (p.x == start.x || p.x == end.x)))
}

fn fill_rect(start: Point, end: Point) -> (add: Pixels)
    ensures
        add@ == filled_rect(start, end),
{
    let min_x = if start.x <= end.x { start.x } else { end.x };
    let max_x = if start.x <= end.x { end.x } else { start.x };
    let min_y = if start.y <= end.y { start.y } else { end.y };
    let max_y = if start.y <= end.y { end.y } else { start.y };
    let mut add = Pixels::new();
    let mut x: i64 = min_x as i64;
    while x <= max_x as i64
        invariant
            min_x <= x <= max_x + 1,
            min_x == min_i32(start.x, end.x),
            max_x == max_i32(start.x, end.x),
            min_y == min_i32(start.y, end.y),
            max_y == max_i32(start.y, end.y),
            add@ == Set::new(|p: Point| min_x <= p.x < x && min_y <= p.y <= max_y),
        decreases max_x + 1 - x,
    {
        let mut y: i64 = min_y as i64;
        while y <= max_y as i64
            invariant
                min_x <= x <= max_x,
                min_y <= y <= max_y + 1,
                add@ == Set::new(|p: Point|
                    (min_x <= p.x < x && min_y <= p.y <= max_y) || (p.x == x && min_y <= p.y < y)),
            decreases max_y + 1 - y,
        {
            add.set(Point::new(x as i32, y as i32), true);
            assert(add@ =~= Set::new(|p: Point|
                (min_x <= p.x < x && min_y <= p.y <= max_y) || (p.x == x && min_y <= p.y < y + 1)));
            y += 1;
        }
        assert(add@ =~= Set::new(|p: Point| min_x <= p.x < x + 1 && min_y <= p.y <= max_y));
        x += 1;
    }
    assert(add@ =~= filled_rect(start, end));
    add
}

fn outline_rect(start: Point, end: Point) -> (add: Pixels)
    ensures
        add@ == rect_outline(start, end),
{
    let min_x = if start.x <= end.x { start.x } else { end.x };
    let max_x = if start.x <= end.x { end.x } else { start.x };
    let min_y = if start.y <= end.y { start.y } else { end.y };
    let max_y = if start.y <= end.y { end.y } else { start.y };
    let mut add = Pixels::new();
    let mut x: i64 = min_x as i64;
    while x <= max_x as i64
        invariant
            min_x <= x <= max_x + 1,
            min_x == min_i32(start.x, end.x),
            max_x == max_i32(start.x, end.x),
            add@ == Set::new(|p: Point| min_x <= p.x < x && (p.y == start.y || p.y == end.y)),
        decreases max_x + 1 - x,
    {
        add.set(Point::new(x as i32, start.y), true);
        add.set(Point::new(x as i32, end.y), true);
        assert(add@ =~= Set::new(|p: Point| min_x <= p.x < x + 1 && (p.y == start.y || p.y == end.y)));
        x += 1;
    }
    let mut y: i64 = min_y as i64;
    while y <= max_y as i64
        invariant
            min_y <= y <= max_y + 1,
            min_x == min_i32(start.x, end.x),
            max_x == max_i32(start.x, end.x),
            min_y == min_i32(start.y, end.y),
            max_y == max_i32(start.y, end.y),
            add@ == Set::new(|p: Point|
                (min_x <= p.x <= max_x && (p.y == start.y || p.y == end.y))
                || (min_y <= p.y < y && (p.x == start.x || p.x == end.x))),
        decreases max_y + 1 - y,
    {
        add.set(Point::new(start.x, y as i32), true);
        add.set(Point::new(end.x, y as i32), true);
        assert(add@ =~= Set::new(|p: Point|
            (min_x <= p.x <= max_x && (p.y == start.y || p.y == end.y))
            || (min_y <= p.y < y + 1 && (p.x == start.x || p.x == end.x))));
        y += 1;
    }
    assert(add@ =~= rect_outline(start, end));
    add
}

impl ToolState {
    /// The pixels the drag in progress would change if released now.
    pub fn delta(&self) -> (d: Delta)
        requires
            !(self is Fill),
            self matches ToolState::Line { start, end } ==> line_in_range(*start, *end),
        ensures
            match self {
                ToolState::Pen { delta } | ToolState::Eraser { delta } => {
                    d.add@ == delta.add@ && d.remove@ == delta.remove@
                },
                ToolState::Line { start, end } => {
                    d.add@ == line_set(*start, *end) && d.remove@ == Set::<Point>::empty()
                },
                ToolState::Rectangle { start, end, fill } => {
                    &&& d.add@ == if *fill { filled_rect(*start, *end) } else { rect_outline(*start, *end) }
                    &&& d.remove@ == Set::<Point>::empty()
                },
                _ => d.add@ == Set::<Point>::empty() && d.remove@ == Set::<Point>::empty(),
            },
    {
        match self {
            ToolState::Idle => Delta::default(),
            ToolState::Pen { delta } => delta.clone(),
            ToolState::Line { start, end } => {
                let points = bresenham(*start, *end);
                let add = Pixels::from_points(points);
                assert(add@ =~= line_set(*start, *end)) by {
                    assert forall|p: Point| line_set(*start, *end).contains(p) implies points@.contains(p) by {
                        let i = choose|i: int| 0 <= i < line_len(*start, *end) && line_point(*start, *end, i) == p;
                        assert(points@[i] == p);
                    }
                }
                Delta { add, remove: Pixels::new() }
            },
            ToolState::Rectangle { start, end, fill } => {
                let add = if *fill { fill_rect(*start, *end) } else { outline_rect(*start, *end) };
                Delta { add, remove: Pixels::new() }
            },
            ToolState::Eraser { delta } => delta.clone(),
            _ => Delta::default(),
        }
    }
}


/// What releasing the pointer button asks of the editor.
#[derive(Debug)]
pub enum Release {
    /// No drag was in progress.
    Nothing,
    /// A pan ended; the view's offset moves by the pan's distance.
    Pan,
    /// A drawing drag ended; apply this change to the glyph.
    Apply(Delta),
}

/// The tool that the space bar has replaced after it goes down while `tool`
/// is chosen: a repeating key keeps what was replaced before.
pub open spec fn replaced_after_press(replaced: Option<Tool>, tool: Tool, repeat: bool) -> Option<Tool> {
    if repeat {
        replaced
    } else {
        Some(tool)
    }
}

/// The tool chosen when the space bar goes up: the one it replaced, or the
/// pan tool where it replaced none.
pub open spec fn tool_after_release(replaced: Option<Tool>) -> Tool {
    match replaced {
        Some(t) => t,
        None => Tool::Pan,
    }
}

/// Holding the space bar pans and letting it go brings back the tool chosen
/// before it went down, however often the key repeated meanwhile; the release
/// forgets that tool, so a release with no press before it keeps panning.
pub proof fn lemma_space_restores_tool(replaced: Option<Tool>, tool: Tool, repeats: Seq<Tool>)
    ensures
        tool_after_release(
            repeats.fold_left(replaced_after_press(replaced, tool, false), |r: Option<Tool>, t: Tool| replaced_after_press(r, t, true)),
        ) == tool,
        tool_after_release(None) == Tool::Pan,
    decreases repeats.len(),
{
    if repeats.len() > 0 {
        lemma_space_restores_tool(replaced, tool, repeats.drop_last());
    }
}

/// The glyph editor's pointer: the drag in progress, and the tool that the
/// space bar replaced with the pan tool while it is held.
#[derive(Debug)]
pub struct Pointer {
    pub state: ToolState,
    pub pan_replaced: Option<Tool>,
}

impl Pointer {
    pub fn new() -> (p: Self)
        ensures
            p.state is Idle,
            p.pan_replaced is None,
    {
        Pointer { state: ToolState::Idle, pan_replaced: None }
    }

    /// The space bar went down while `tool` was chosen: unless the key is
    /// repeating, pan until it goes up. Returns the tool to switch to.
    pub fn space_pressed(&mut self, tool: Tool, repeat: bool) -> (r: Option<Tool>)
        ensures
            repeat ==> r is None,
            !repeat ==> r == Some(Tool::Pan),
            final(self).pan_replaced == replaced_after_press(old(self).pan_replaced, tool, repeat),
            final(self).state == old(self).state,
    {
        if repeat {
            return None;
        }
        self.pan_replaced = Some(tool);
        Some(Tool::Pan)
    }

    /// The space bar went up: returns the tool it replaced, or the pan tool
    /// where it replaced none.
    pub fn space_released(&mut self) -> (r: Tool)
        ensures
            r == tool_after_release(old(self).pan_replaced),
            final(self).pan_replaced is None,
            final(self).state == old(self).state,
    {
        let r = match self.pan_replaced {
            Some(t) => t,
            None => Tool::Pan,
        };
        self.pan_replaced = None;
        r
    }

    /// The pointer moved, over the glyph point `point` where it is over the
    /// glyph grid: the pen turns the point on, the eraser turns it off, and a
    /// line or rectangle ends there.
    pub fn moved(&mut self, point: Option<Point>)
        requires
            !(old(self).state is Fill),
        ensures
            final(self).pan_replaced == old(self).pan_replaced,
            match point {
                None => final(self).state == old(self).state,
                Some(p) => match old(self).state {
                    ToolState::Pen { delta } => final(self).state matches ToolState::Pen { delta: d }
                        && d.add@ == delta.add@.insert(p) && d.remove@ == delta.remove@,
                    ToolState::Eraser { delta } => final(self).state matches ToolState::Eraser { delta: d }
                        && d.add@ == delta.add@ && d.remove@ == delta.remove@.insert(p),
                    ToolState::Line { start, .. } => final(self).state == ToolState::Line { start, end: p },
                    ToolState::Rectangle { start, fill, .. } => final(self).state == ToolState::Rectangle {
                        start,
                        end: p,
                        fill,
                    },
                    _ => final(self).state == old(self).state,
                },
            },
    {
        let p = match point {
            Some(p) => p,
            None => return,
        };
        match &mut self.state {
            ToolState::Pen { delta } => {
                delta.add.set(p, true);
            },
            ToolState::Eraser { delta } => {
                delta.remove.set(p, true);
            },
            ToolState::Line { end, .. } => {
                *end = p;
            },
            ToolState::Rectangle { end, .. } => {
                *end = p;
            },
            _ => {},
        }
    }

    /// The button went down over the glyph point `point` with `tool`
    /// chosen: a drag with that tool starts there.
    pub fn pressed(&mut self, tool: Tool, point: Point)
        ensures
            final(self).pan_replaced == old(self).pan_replaced,
            match tool {
                Tool::Pen => final(self).state matches ToolState::Pen { delta } && delta.add@.is_empty()
                    && delta.remove@.is_empty(),
                Tool::Eraser => final(self).state matches ToolState::Eraser { delta } && delta.add@.is_empty()
                    && delta.remove@.is_empty(),
                Tool::Line => final(self).state == ToolState::Line { start: point, end: point },
                Tool::Rectangle => final(self).state == ToolState::Rectangle { start: point, end: point, fill: false },
                Tool::Fill => final(self).state == ToolState::Fill { point },
                Tool::Pan => final(self).state is Pan,
            },
    {
        self.state = match tool {
            Tool::Pen => ToolState::Pen { delta: Delta::default() },
            Tool::Line => ToolState::Line { start: point, end: point },
            Tool::Rectangle => ToolState::Rectangle { start: point, end: point, fill: false },
            Tool::Fill => ToolState::Fill { point },
            Tool::Eraser => ToolState::Eraser { delta: Delta::default() },
            Tool::Pan => ToolState::Pan,
        };
    }

    /// The button went up: the drag ends, and what it drew is to be applied.
    pub fn released(&mut self) -> (r: Release)
        requires
            !(old(self).state is Fill),
            old(self).state matches ToolState::Line { start, end } ==> line_in_range(start, end),
        ensures
            final(self).state is Idle,
            final(self).pan_replaced == old(self).pan_replaced,
            match old(self).state {
                ToolState::Idle => r is Nothing,
                ToolState::Pan => r is Pan,
                ToolState::Pen { delta } | ToolState::Eraser { delta } => r matches Release::Apply(d)
                    && d.add@ == delta.add@ && d.remove@ == delta.remove@,
                ToolState::Line { start, end } => r matches Release::Apply(d) && d.add@ == line_set(start, end)
                    && d.remove@.is_empty(),
                ToolState::Rectangle { start, end, fill } => r matches Release::Apply(d) && d.add@ == (if fill {
                    filled_rect(start, end)
                } else {
                    rect_outline(start, end)
                }) && d.remove@.is_empty(),
                _ => true,
            },
    {
        let r = match &self.state {
            ToolState::Idle => Release::Nothing,
            ToolState::Pan => Release::Pan,
            _ => Release::Apply(self.state.delta()),
        };
        self.state = ToolState::Idle;
        r
    }
}

pub open spec fn abs(v: int) -> int {
    if v < 0 { -v } else { v }
}

/// The direction to step from `0` towards `v`: `-1` below zero, `1` otherwise.
pub open spec fn step_towards(v: int) -> int {
    if v < 0 { -1 } else { 1 }
}

/// Both coordinate differences are small enough that twice their size fits an
/// `i32`, as the line algorithm needs.
pub open spec fn line_in_range(start: Point, end: Point) -> bool {
    &&& abs(end.x - start.x) <= 0x3fff_ffff
    &&& abs(end.y - start.y) <= 0x3fff_ffff
}

/// The number of points on the line from `start` to `end`.
pub open spec fn line_len(start: Point, end: Point) -> nat {
    let adx = abs(end.x - start.x);
    let ady = abs(end.y - start.y);
    (if adx > ady { adx } else { ady } + 1) as nat
}

/// Point `i` of the line from `start` to `end`: the coordinate that changes
/// most advances one step per point, the other is the nearest grid value of
/// the exact line, rounding halves away from `start`.
pub open spec fn line_point(start: Point, end: Point, i: int) -> Point {
    let dx = end.x - start.x;
    let dy = end.y - start.y;
    let adx = abs(dx);
    let ady = abs(dy);
    if adx > ady {
        Point {
            x: (start.x + step_towards(dx) * i) as i32,
            y: (start.y + step_towards(dy) * ((2 * i * ady + adx) / (2 * adx))) as i32,
        }
    } else if ady == 0 {
        start
    } else {
        Point {
            x: (start.x + step_towards(dx) * ((2 * i * adx + ady) / (2 * ady))) as i32,
            y: (start.y + step_towards(dy) * i) as i32,
        }
    }
}

proof fn lemma_floor_div(n: int, a: int, k: int)
    requires
        a > 0,
        a * k <= n < a * (k + 1),
    ensures
        n / a == k,
{
    vstd::arithmetic::div_mod::lemma_fundamental_div_mod(n, a);
    let q = n / a;
    let r = n % a;
    assert(0 <= r < a) by {
        vstd::arithmetic::div_mod::lemma_mod_bound(n, a);
    }
    assert(a * q + r == n);
    if q < k {
        assert(a * q <= a * (k - 1)) by (nonlinear_arith)
            requires q <= k - 1, a > 0;
        assert(a * (k - 1) + a == a * k) by (nonlinear_arith);
    } else if q > k {
        assert(a * q >= a * (k + 1)) by (nonlinear_arith)
            requires q >= k + 1, a > 0;
    }
}

/// The points of the line from `start` to `end`, in order from `start`.
pub fn bresenham(start: Point, end: Point) -> (points: Vec<Point>)
    requires
        line_in_range(start, end),
    ensures
        points@.len() == line_len(start, end),
        forall|i: int| 0 <= i < points@.len() ==> #[trigger] points@[i] == line_point(start, end, i),
{
    let dx: i64 = (end.x as i64) - (start.x as i64);
    let dy: i64 = (end.y as i64) - (start.y as i64);
    let adx: i64 = if dx < 0 { -dx } else { dx };
    let ady: i64 = if dy < 0 { -dy } else { dy };
    let ax: i64 = 2 * adx;
    let ay: i64 = 2 * ady;
    let sx: i32 = if dx < 0 { -1 } else { 1 };
    let sy: i32 = if dy < 0 { -1 } else { 1 };
    let mut x: i32 = start.x;
    let mut y: i32 = start.y;
    let mut points: Vec<Point> = Vec::new();
    // `i` counts the steps along the major axis, `k` those along the minor one.
    let ghost mut i: int = 0;
    let ghost mut k: int = 0;
    // `step_major` is twice the minor distance times `i`, `step_minor` twice the
    // major distance times `k`.
    let ghost mut step_major: int = 0;
    let ghost mut step_minor: int = 0;
    if ax > ay {
        let mut d: i64 = ay - ax / 2;
        proof {
            assert(2 * 0 * ady == 0 && 2 * adx * 0 == 0) by (nonlinear_arith);
        }
        loop
            invariant
                adx == abs(end.x - start.x),
                ady == abs(end.y - start.y),
                ax == 2 * adx,
                ay == 2 * ady,
                adx > ady,
                adx <= 0x3fff_ffff,
                sx == step_towards(end.x - start.x),
                sy == step_towards(end.y - start.y),
                0 <= i <= adx,
                0 <= k <= ady,
                x == start.x + sx * i,
                y == start.y + sy * k,
                step_major == 2 * i * ady,
                step_minor == 2 * adx * k,
                step_minor <= step_major + adx < step_minor + 2 * adx,
                d == step_major + 2 * ady - adx - step_minor,
                points@.len() == i,
                forall|j: int| 0 <= j < i ==> #[trigger] points@[j] == line_point(start, end, j),
            decreases adx - i,
        {
            proof {
                assert(2 * adx * (k + 1) == 2 * adx * k + 2 * adx) by (nonlinear_arith);
                lemma_floor_div(2 * i * ady + adx, 2 * adx, k);
            }
            points.push(Point::new(x, y));
            if x == end.x {
                proof {
                    assert(i == adx) by {
                        if i < adx {
                            assert(sx * i != end.x - start.x);
                        }
                    }
                }
                return points;
            }
            proof {
                assert(i < adx) by {
                    if i == adx {
                        assert(sx * i == end.x - start.x);
                    }
                }
                assert(2 * (i + 1) * ady == 2 * i * ady + 2 * ady) by (nonlinear_arith);
                assert(2 * (i + 1) * ady <= 2 * adx * ady) by (nonlinear_arith)
                    requires i + 1 <= adx, ady >= 0;
            }
            if d >= 0 {
                proof {
                    assert(2 * adx * (k + 1) <= 2 * adx * ady + adx);
                    assert(k + 1 <= ady) by (nonlinear_arith)
                        requires 2 * adx * (k + 1) <= 2 * adx * ady + adx, adx > 0;
                    k = k + 1;
                    step_minor = step_minor + 2 * adx;
                }
                y = y + sy;
                d = d - ax;
            }
            proof {
                i = i + 1;
                step_major = step_major + 2 * ady;
            }
            x = x + sx;
            d = d + ay;
        }
    } else {
        let mut d: i64 = ax - ay / 2;
        proof {
            assert(2 * 0 * adx == 0 && 2 * ady * 0 == 0) by (nonlinear_arith);
        }
        loop
            invariant
                adx == abs(end.x - start.x),
                ady == abs(end.y - start.y),
                ax == 2 * adx,
                ay == 2 * ady,
                adx <= ady,
                ady <= 0x3fff_ffff,
                sx == step_towards(end.x - start.x),
                sy == step_towards(end.y - start.y),
                0 <= i <= ady,
                0 <= k <= adx,
                x == start.x + sx * k,
                y == start.y + sy * i,
                step_major == 2 * i * adx,
                step_minor == 2 * ady * k,
                ady > 0 ==> step_minor <= step_major + ady < step_minor + 2 * ady,
                ady == 0 ==> i == 0 && k == 0,
                d == step_major + 2 * adx - ady - step_minor,
                points@.len() == i,
                forall|j: int| 0 <= j < i ==> #[trigger] points@[j] == line_point(start, end, j),
            decreases ady - i,
        {
            proof {
                assert(2 * ady * (k + 1) == 2 * ady * k + 2 * ady) by (nonlinear_arith);
                if ady > 0 {
                    lemma_floor_div(2 * i * adx + ady, 2 * ady, k);
                }
            }
            points.push(Point::new(x, y));
            if y == end.y {
                proof {
                    assert(i == ady) by {
                        if i < ady {
                            assert(sy * i != end.y - start.y);
                        }
                    }
                }
                return points;
            }
            proof {
                assert(i < ady) by {
                    if i == ady {
                        assert(sy * i == end.y - start.y);
                    }
                }
                assert(2 * (i + 1) * adx == 2 * i * adx + 2 * adx) by (nonlinear_arith);
                assert(2 * (i + 1) * adx <= 2 * ady * adx) by (nonlinear_arith)
                    requires i + 1 <= ady, adx >= 0;
            }
            if d >= 0 {
                proof {
                    assert(2 * ady * (k + 1) <= 2 * ady * adx + ady);
                    assert(k + 1 <= adx) by (nonlinear_arith)
                        requires 2 * ady * (k + 1) <= 2 * ady * adx + ady, ady > 0;
                    k = k + 1;
                    step_minor = step_minor + 2 * ady;
                }
                x = x + sx;
                d = d - ay;
            }
            proof {
                i = i + 1;
                step_major = step_major + 2 * adx;
            }
            y = y + sy;
            d = d + ax;
        }
    }
}


proof fn lemma_div_step(n1: int, n2: int, a: int)
    requires
        a > 0,
        0 <= n1 <= n2 <= n1 + a,
    ensures
        n1 / a <= n2 / a <= n1 / a + 1,
{
    vstd::arithmetic::div_mod::lemma_div_is_ordered(n1, n2, a);
    vstd::arithmetic::div_mod::lemma_div_is_ordered(n2, n1 + a, a);
    vstd::arithmetic::div_mod::lemma_div_plus_one(n1, a);
}

/// The minor coordinate of point `i` advances by `q` steps, where `q` is
/// between zero and the minor distance.
proof fn lemma_step_mul(step: int, q: int, bound: int)
    requires
        step == 1 || step == -1,
        0 <= q <= bound,
    ensures
        -bound <= step * q <= bound,
        step * (q + 1) == step * q + step,
        step * 0 == 0,
{
    assert(step * (q + 1) == step * q + step) by (nonlinear_arith);
    assert(-bound <= step * q <= bound) by (nonlinear_arith)
        requires step == 1 || step == -1, 0 <= q <= bound;
    assert(step * 0 == 0) by (nonlinear_arith);
}

/// Bounds of the rounded minor coordinate of point `i`: it lies between
/// zero and the minor distance, and grows by at most one per point.
proof fn lemma_minor_steps(i: int, major: int, minor: int)
    requires
        0 <= minor < major || (0 < major && minor == major),
        0 < i <= major,
    ensures
        0 <= (2 * (i - 1) * minor + major) / (2 * major) <= (2 * i * minor + major) / (2 * major),
        (2 * i * minor + major) / (2 * major) <= (2 * (i - 1) * minor + major) / (2 * major) + 1,
        (2 * i * minor + major) / (2 * major) <= minor,
{
    assert(2 * i * minor == 2 * (i - 1) * minor + 2 * minor) by (nonlinear_arith);
    assert(0 <= 2 * (i - 1) * minor) by (nonlinear_arith)
        requires i >= 1, minor >= 0;
    lemma_div_step(2 * (i - 1) * minor + major, 2 * i * minor + major, 2 * major);
    vstd::arithmetic::div_mod::lemma_div_pos_is_pos(2 * (i - 1) * minor + major, 2 * major);
    assert(2 * i * minor + major <= 2 * major * minor + major) by (nonlinear_arith)
        requires i <= major, minor >= 0;
    assert(2 * major * minor <= 2 * major * minor + major < 2 * major * (minor + 1)) by (nonlinear_arith)
        requires major > 0;
    lemma_floor_div(2 * major * minor + major, 2 * major, minor);
    vstd::arithmetic::div_mod::lemma_div_is_ordered(2 * i * minor + major, 2 * major * minor + major, 2 * major);
}

/// A drawn line begins at the point where the drag started, ends where it
/// ended, and each of its points touches the one before it (it is 8-connected).
pub proof fn lemma_line_connected(start: Point, end: Point)
    requires
        line_in_range(start, end),
    ensures
        line_point(start, end, 0) == start,
        line_point(start, end, line_len(start, end) - 1) == end,
        forall|i: int|
            0 < i < line_len(start, end) ==> {
                &&& abs(#[trigger] line_point(start, end, i).x - line_point(start, end, i - 1).x) <= 1
                &&& abs(line_point(start, end, i).y - line_point(start, end, i - 1).y) <= 1
            },
{
    let dx = end.x - start.x;
    let dy = end.y - start.y;
    let adx = abs(dx);
    let ady = abs(dy);
    let sx = step_towards(dx);
    let sy = step_towards(dy);
    assert(sx * adx == dx && sy * ady == dy);
    if adx > ady {
        lemma_floor_div(adx, 2 * adx, 0);
        assert(2 * 0 * ady == 0) by (nonlinear_arith);
        lemma_step_mul(sx, 0, adx);
        lemma_step_mul(sy, 0, ady);
        lemma_minor_steps(adx, adx, ady);
        assert(2 * adx * ady <= 2 * adx * ady + adx < 2 * adx * (ady + 1)) by (nonlinear_arith)
            requires adx > 0;
        assert(2 * adx * ady == 2 * ady * adx) by (nonlinear_arith);
        lemma_floor_div(2 * adx * ady + adx, 2 * adx, ady);
    } else if ady == 0 {
    } else {
        lemma_floor_div(ady, 2 * ady, 0);
        assert(2 * 0 * adx == 0) by (nonlinear_arith);
        lemma_step_mul(sx, 0, adx);
        lemma_step_mul(sy, 0, ady);
        lemma_minor_steps(ady, ady, adx);
        assert(2 * ady * adx <= 2 * ady * adx + ady < 2 * ady * (adx + 1)) by (nonlinear_arith)
            requires ady > 0;
        assert(2 * ady * adx == 2 * adx * ady) by (nonlinear_arith);
        lemma_floor_div(2 * ady * adx + ady, 2 * ady, adx);
    }
    assert forall|i: int| 0 < i < line_len(start, end) implies {
        &&& abs(#[trigger] line_point(start, end, i).x - line_point(start, end, i - 1).x) <= 1
        &&& abs(line_point(start, end, i).y - line_point(start, end, i - 1).y) <= 1
    } by {
        lemma_line_step(start, end, i);
    }
}

proof fn lemma_line_step(start: Point, end: Point, i: int)
    requires
        line_in_range(start, end),
        0 < i < line_len(start, end),
    ensures
        abs(line_point(start, end, i).x - line_point(start, end, i - 1).x) <= 1,
        abs(line_point(start, end, i).y - line_point(start, end, i - 1).y) <= 1,
{
    let dx = end.x - start.x;
    let dy = end.y - start.y;
    let adx = abs(dx);
    let ady = abs(dy);
    let sx = step_towards(dx);
    let sy = step_towards(dy);
    if adx > ady {
        lemma_minor_steps(i, adx, ady);
        let q1 = (2 * (i - 1) * ady + adx) / (2 * adx);
        let q2 = (2 * i * ady + adx) / (2 * adx);
        lemma_step_mul(sx, i - 1, adx);
        lemma_step_mul(sy, q1, ady);
        lemma_step_mul(sy, q2, ady);
        lemma_step_mul(sx, i, adx);
    } else {
        lemma_minor_steps(i, ady, adx);
        let q1 = (2 * (i - 1) * adx + ady) / (2 * ady);
        let q2 = (2 * i * adx + ady) / (2 * ady);
        lemma_step_mul(sy, i - 1, ady);
        lemma_step_mul(sx, q1, adx);
        lemma_step_mul(sx, q2, adx);
        lemma_step_mul(sy, i, ady);
    }
}

} // verus!
