use vstd::prelude::*;

use crate::geometry::{span, spanned, Point, Size};

verus! {

/// The kinds of drawing tool, in toolbar order.
#[derive(Clone, Copy, PartialEq, Eq, Structural, Debug)]
pub enum ToolKind {
    Rectangle,
    Circle,
    FreeHand,
    Line,
    Arrow,
    Text,
}

/// A drawing tool together with the shape it is drawing.
#[derive(Debug)]
pub enum Tool {
    Rectangle { top_left: Point, bottom_right: Point, size: Size, filled: bool, opaque: bool },
    Circle { center: Point, radius: u64, filled: bool, opaque: bool },
    FreeHand { points: Vec<Point> },
    Line { start: Point, end: Point },
    Arrow { start: Point, end: Point, right: Point, left: Point },
    Text { anchor_point: Point, text: String },
}

/// The abstract value of a tool.
pub enum ToolView {
    Rectangle { top_left: Point, bottom_right: Point, size: Size, filled: bool, opaque: bool },
    Circle { center: Point, radius: u64, filled: bool, opaque: bool },
    FreeHand { points: Seq<Point> },
    Line { start: Point, end: Point },
    Arrow { start: Point, end: Point, right: Point, left: Point },
    Text { anchor_point: Point, text: Seq<char> },
}

impl View for Tool {
    type V = ToolView;

    open spec fn view(&self) -> ToolView {
        match self {
            Tool::Rectangle { top_left, bottom_right, size, filled, opaque } => ToolView::Rectangle {
                top_left: *top_left,
                bottom_right: *bottom_right,
                size: *size,
                filled: *filled,
                opaque: *opaque,
            },
            Tool::Circle { center, radius, filled, opaque } => ToolView::Circle {
                center: *center,
                radius: *radius,
                filled: *filled,
                opaque: *opaque,
            },
            Tool::FreeHand { points } => ToolView::FreeHand { points: points@ },
            Tool::Line { start, end } => ToolView::Line { start: *start, end: *end },
            Tool::Arrow { start, end, right, left } => ToolView::Arrow {
                start: *start,
                end: *end,
                right: *right,
                left: *left,
            },
            Tool::Text { anchor_point, text } => ToolView::Text { anchor_point: *anchor_point, text: text@ },
        }
    }
}

pub open spec fn origin() -> Point {
    Point { x: 0, y: 0 }
}

/// A coordinate held to the range of `i32`.
pub open spec fn clamp_coord(v: int) -> i32 {
    if v < i32::MIN {
        i32::MIN
    } else if v > i32::MAX {
        i32::MAX
    } else {
        v as i32
    }
}

/// The two barbs of an arrow from `start` to `end`: from the tip, each
/// goes back a quarter of the shaft and a quarter of the shaft sideways
/// (rounding down), the right barb to one side and the left to the other.
pub open spec fn arrow_barbs(start: Point, end: Point) -> (Point, Point) {
    let dx = end.x - start.x;
    let dy = end.y - start.y;
    (
        Point { x: clamp_coord(end.x + (-dx - dy) / 4), y: clamp_coord(end.y + (dx - dy) / 4) },
        Point { x: clamp_coord(end.x + (dy - dx) / 4), y: clamp_coord(end.y + (-dx - dy) / 4) },
    )
}

/// `r` is the integer square root of `n`.
pub open spec fn is_floor_sqrt(n: int, r: int) -> bool {
    0 <= r && r * r <= n < (r + 1) * (r + 1)
}

/// The squared distance between two points.
pub open spec fn dist2(a: Point, b: Point) -> int {
    (b.x - a.x) * (b.x - a.x) + (b.y - a.y) * (b.y - a.y)
}

/// The radius of a circle drawn from its centre `a` out to `b`: the
/// distance between them, rounded down.
pub open spec fn radius_between(a: Point, b: Point) -> u64 {
    (choose|r: u64| is_floor_sqrt(dist2(a, b), r as int))
}

impl ToolView {
    pub open spec fn kind(self) -> ToolKind {
        match self {
            ToolView::Rectangle { .. } => ToolKind::Rectangle,
            ToolView::Circle { .. } => ToolKind::Circle,
            ToolView::FreeHand { .. } => ToolKind::FreeHand,
            ToolView::Line { .. } => ToolKind::Line,
            ToolView::Arrow { .. } => ToolKind::Arrow,
            ToolView::Text { .. } => ToolKind::Text,
        }
    }

    /// A shape is worth keeping when it is not degenerate.
    pub open spec fn is_valid(self) -> bool {
        match self {
            ToolView::Rectangle { size, .. } => size.width > 0 && size.height > 0,
            ToolView::Circle { radius, .. } => radius > 0,
            ToolView::FreeHand { points } => points.len() > 1,
            ToolView::Line { start, end } => start != end,
            ToolView::Arrow { start, end, .. } => start != end,
            ToolView::Text { text, .. } => text.len() > 0,
        }
    }

    /// The same tool with no shape; a rectangle or circle keeps its style.
    pub open spec fn reset(self) -> ToolView {
        match self {
            ToolView::Rectangle { filled, opaque, .. } => ToolView::Rectangle {
                top_left: origin(),
                bottom_right: origin(),
                size: Size { width: 0, height: 0 },
                filled,
                opaque,
            },
            ToolView::Circle { filled, opaque, .. } => ToolView::Circle { center: origin(), radius: 0, filled, opaque },
            ToolView::FreeHand { .. } => ToolView::FreeHand { points: Seq::empty() },
            ToolView::Line { .. } => ToolView::Line { start: origin(), end: origin() },
            ToolView::Arrow { .. } => ToolView::Arrow { start: origin(), end: origin(), right: origin(), left: origin() },
            ToolView::Text { .. } => ToolView::Text { anchor_point: origin(), text: Seq::empty() },
        }
    }

    /// The shape starts at `p`: every point of it is `p`.
    pub open spec fn initiate(self, p: Point) -> ToolView {
        match self {
            ToolView::Rectangle { filled, opaque, .. } => ToolView::Rectangle {
                top_left: p,
                bottom_right: p,
                size: Size { width: 0, height: 0 },
                filled,
                opaque,
            },
            ToolView::Circle { filled, opaque, .. } => ToolView::Circle { center: p, radius: 0, filled, opaque },
            ToolView::FreeHand { .. } => ToolView::FreeHand { points: seq![p] },
            ToolView::Line { .. } => ToolView::Line { start: p, end: p },
            ToolView::Arrow { .. } => ToolView::Arrow { start: p, end: p, right: p, left: p },
            ToolView::Text { text, .. } => ToolView::Text { anchor_point: p, text },
        }
    }

    /// The shape of a drag from `initial` to `current`.
    pub open spec fn drag(self, initial: Point, current: Point) -> ToolView {
        match self {
            ToolView::Rectangle { filled, opaque, .. } => ToolView::Rectangle {
                top_left: spanned(initial, current).0,
                bottom_right: spanned(initial, current).1,
                size: spanned(initial, current).2,
                filled,
                opaque,
            },
            ToolView::Circle { filled, opaque, .. } => ToolView::Circle {
                center: initial,
                radius: radius_between(initial, current),
                filled,
                opaque,
            },
            ToolView::FreeHand { points } => ToolView::FreeHand { points: points.push(current) },
            ToolView::Line { .. } => ToolView::Line { start: initial, end: current },
            ToolView::Arrow { .. } => ToolView::Arrow {
                start: initial,
                end: current,
                right: arrow_barbs(initial, current).0,
                left: arrow_barbs(initial, current).1,
            },
            ToolView::Text { anchor_point, text } => ToolView::Text { anchor_point, text },
        }
    }
}

/// The fresh tool of each kind: no shape, not filled, opaque.
pub open spec fn fresh(kind: ToolKind) -> ToolView {
    match kind {
        ToolKind::Rectangle => ToolView::Rectangle {
            top_left: origin(),
            bottom_right: origin(),
            size: Size { width: 0, height: 0 },
            filled: false,
            opaque: true,
        },
        ToolKind::Circle => ToolView::Circle { center: origin(), radius: 0, filled: false, opaque: true },
        ToolKind::FreeHand => ToolView::FreeHand { points: Seq::empty() },
        ToolKind::Line => ToolView::Line { start: origin(), end: origin() },
        ToolKind::Arrow => ToolView::Arrow { start: origin(), end: origin(), right: origin(), left: origin() },
        ToolKind::Text => ToolView::Text { anchor_point: origin(), text: Seq::empty() },
    }
}

/// The kinds of tool in toolbar order.
pub open spec fn toolbar_kinds() -> Seq<ToolKind> {
    seq![ToolKind::Rectangle, ToolKind::Circle, ToolKind::FreeHand, ToolKind::Line, ToolKind::Arrow, ToolKind::Text]
}

/// `v` divided by four, rounded down.
fn floor_quarter(v: i64) -> (r: i64)
    requires
        -0x4000_0000_0000_0000 < v < 0x4000_0000_0000_0000,
    ensures
        r == v / 4,
{
    if v >= 0 {
        ((v as u64) / 4) as i64
    } else {
        let m = ((-v) as u64 + 3) / 4;
        -(m as i64)
    }
}

fn clamp_to_i32(v: i64) -> (r: i32)
    ensures
        r == clamp_coord(v as int),
{
    if v < i32::MIN as i64 {
        i32::MIN
    } else if v > i32::MAX as i64 {
        i32::MAX
    } else {
        v as i32
    }
}

fn barbs(start: Point, end: Point) -> (r: (Point, Point))
    ensures
        r == arrow_barbs(start, end),
{
    let dx = end.x as i64 - start.x as i64;
    let dy = end.y as i64 - start.y as i64;
    let ex = end.x as i64;
    let ey = end.y as i64;
    let right = Point {
        x: clamp_to_i32(ex + floor_quarter(-dx - dy)),
        y: clamp_to_i32(ey + floor_quarter(dx - dy)),
    };
    let left = Point {
        x: clamp_to_i32(ex + floor_quarter(dy - dx)),
        y: clamp_to_i32(ey + floor_quarter(-dx - dy)),
    };
    (right, left)
}

proof fn lemma_floor_sqrt_unique(n: int, r1: int, r2: int)
    requires
        is_floor_sqrt(n, r1),
        is_floor_sqrt(n, r2),
    ensures
        r1 == r2,
{
    if r1 < r2 {
        assert((r1 + 1) * (r1 + 1) <= r2 * r2) by (nonlinear_arith)
            requires
                0 <= r1 < r2,
        ;
    } else if r2 < r1 {
        assert((r2 + 1) * (r2 + 1) <= r1 * r1) by (nonlinear_arith)
            requires
                0 <= r2 < r1,
        ;
    }
}

/// The integer square root of `n`, by bisection.
fn floor_sqrt(n: u128) -> (r: u64)
    requires
        n < 0x4_0000_0000_0000_0000,
    ensures
        is_floor_sqrt(n as int, r as int),
{
    let mut lo: u64 = 0;
    let mut hi: u64 = 0x2_0000_0000;
    assert(0x2_0000_0000u64 * 0x2_0000_0000u64 == 0x4_0000_0000_0000_0000) by (nonlinear_arith);
    while hi - lo > 1
        invariant
            lo < hi <= 0x2_0000_0000,
            lo * lo <= n,
            n < hi * hi,
        decreases hi - lo,
    {
        let mid = lo + (hi - lo) / 2;
        assert(mid * mid <= 0x4_0000_0000_0000_0000) by (nonlinear_arith)
            requires
                mid <= 0x2_0000_0000,
        ;
        let sq = (mid as u128) * (mid as u128);
        if sq <= n {
            lo = mid;
        } else {
            hi = mid;
        }
    }
    lo
}

fn radius(a: Point, b: Point) -> (r: u64)
    ensures
        r == radius_between(a, b),
{
    let dx = b.x as i64 - a.x as i64;
    let dy = b.y as i64 - a.y as i64;
    let ax: u64 = if dx < 0 { (-dx) as u64 } else { dx as u64 };
    let ay: u64 = if dy < 0 { (-dy) as u64 } else { dy as u64 };
    assert(ax * ax <= 0xffff_ffff * 0xffff_ffff) by (nonlinear_arith)
        requires
            ax <= 0xffff_ffff,
    ;
    assert(ay * ay <= 0xffff_ffff * 0xffff_ffff) by (nonlinear_arith)
        requires
            ay <= 0xffff_ffff,
    ;
    let n = (ax as u128) * (ax as u128) + (ay as u128) * (ay as u128);
    assert(n == dist2(a, b)) by (nonlinear_arith)
        requires
            n == ax * ax + ay * ay,
            ax == dx || ax == -dx,
            ay == dy || ay == -dy,
            dx == b.x - a.x,
            dy == b.y - a.y,
    ;
    let r = floor_sqrt(n);
    proof {
        let c = choose|c: u64| is_floor_sqrt(dist2(a, b), c as int);
        assert(is_floor_sqrt(dist2(a, b), r as int));
        lemma_floor_sqrt_unique(dist2(a, b), r as int, c as int);
    }
    r
}

fn copy_points(points: &Vec<Point>) -> (r: Vec<Point>)
    ensures
        r@ == points@,
{
    let mut r: Vec<Point> = Vec::new();
    let mut i: usize = 0;
    while i < points.len()
        invariant
            i <= points.len(),
            r@ == points@.subrange(0, i as int),
        decreases points.len() - i,
    {
        r.push(points[i]);
        i = i + 1;
        assert(r@ =~= points@.subrange(0, i as int));
    }
    assert(r@ =~= points@);
    r
}

impl Tool {
    /// A fresh tool of the given kind.
    pub fn fresh(kind: ToolKind) -> (t: Tool)
        ensures
            t@ == fresh(kind),
    {
        match kind {
            ToolKind::Rectangle => Tool::Rectangle {
                top_left: Point::origin(),
                bottom_right: Point::origin(),
                size: Size::zero(),
                filled: false,
                opaque: true,
            },
            ToolKind::Circle => Tool::Circle { center: Point::origin(), radius: 0, filled: false, opaque: true },
            ToolKind::FreeHand => {
                let t = Tool::FreeHand { points: Vec::new() };
                assert(t@ == fresh(kind));
                t
            },
            ToolKind::Line => Tool::Line { start: Point::origin(), end: Point::origin() },
            ToolKind::Arrow => Tool::Arrow {
                start: Point::origin(),
                end: Point::origin(),
                right: Point::origin(),
                left: Point::origin(),
            },
            ToolKind::Text => Tool::Text { anchor_point: Point::origin(), text: String::new() },
        }
    }

    /// Every tool of the toolbar, fresh, in toolbar order.
    pub fn all() -> (r: Vec<Tool>)
        ensures
            r.len() == 6,
            forall|i: int| 0 <= i < 6 ==> #[trigger] r@[i]@ == fresh(toolbar_kinds()[i]),
    {
        let mut r: Vec<Tool> = Vec::new();
        r.push(Tool::fresh(ToolKind::Rectangle));
        r.push(Tool::fresh(ToolKind::Circle));
        r.push(Tool::fresh(ToolKind::FreeHand));
        r.push(Tool::fresh(ToolKind::Line));
        r.push(Tool::fresh(ToolKind::Arrow));
        r.push(Tool::fresh(ToolKind::Text));
        r
    }

    pub fn kind(&self) -> (k: ToolKind)
        ensures
            k == self@.kind(),
    {
        match self {
            Tool::Rectangle { .. } => ToolKind::Rectangle,
            Tool::Circle { .. } => ToolKind::Circle,
            Tool::FreeHand { .. } => ToolKind::FreeHand,
            Tool::Line { .. } => ToolKind::Line,
            Tool::Arrow { .. } => ToolKind::Arrow,
            Tool::Text { .. } => ToolKind::Text,
        }
    }

    pub fn is_text_tool(&self) -> (b: bool)
        ensures
            b == (self@.kind() == ToolKind::Text),
    {
        match self {
            Tool::Text { .. } => true,
            _ => false,
        }
    }

    pub fn is_valid(&self) -> (b: bool)
        ensures
            b == self@.is_valid(),
    {
        match self {
            Tool::Rectangle { size, .. } => size.width > 0 && size.height > 0,
            Tool::Circle { radius, .. } => *radius > 0,
            Tool::FreeHand { points } => points.len() > 1,
            Tool::Line { start, end } => start != end,
            Tool::Arrow { start, end, .. } => start != end,
            Tool::Text { text, .. } => !text.as_str().is_empty(),
        }
    }

    /// A copy of the tool and its shape.
    pub fn duplicate(&self) -> (t: Tool)
        ensures
            t@ == self@,
    {
        match self {
            Tool::Rectangle { top_left, bottom_right, size, filled, opaque } => Tool::Rectangle {
                top_left: *top_left,
                bottom_right: *bottom_right,
                size: *size,
                filled: *filled,
                opaque: *opaque,
            },
            Tool::Circle { center, radius, filled, opaque } => Tool::Circle {
                center: *center,
                radius: *radius,
                filled: *filled,
                opaque: *opaque,
            },
            Tool::FreeHand { points } => Tool::FreeHand { points: copy_points(points) },
            Tool::Line { start, end } => Tool::Line { start: *start, end: *end },
            Tool::Arrow { start, end, right, left } => Tool::Arrow {
                start: *start,
                end: *end,
                right: *right,
                left: *left,
            },
            Tool::Text { anchor_point, text } => Tool::Text { anchor_point: *anchor_point, text: text.clone() },
        }
    }

    /// Clears the shape, keeping the tool.
    pub fn reset(&mut self)
        ensures
            final(self)@ == old(self)@.reset(),
    {
        let next = match self {
            Tool::Rectangle { filled, opaque, .. } => Tool::Rectangle {
                top_left: Point::origin(),
                bottom_right: Point::origin(),
                size: Size::zero(),
                filled: *filled,
                opaque: *opaque,
            },
            Tool::Circle { filled, opaque, .. } => Tool::Circle {
                center: Point::origin(),
                radius: 0,
                filled: *filled,
                opaque: *opaque,
            },
            Tool::FreeHand { .. } => Tool::FreeHand { points: Vec::new() },
            Tool::Line { .. } => Tool::Line { start: Point::origin(), end: Point::origin() },
            Tool::Arrow { .. } => Tool::Arrow {
                start: Point::origin(),
                end: Point::origin(),
                right: Point::origin(),
                left: Point::origin(),
            },
            Tool::Text { .. } => Tool::Text { anchor_point: Point::origin(), text: String::new() },
        };
        *self = next;
        assert(self@ =~~= old(self)@.reset());
    }

    /// Starts a shape at `p`.
    pub fn initiate(&mut self, p: Point)
        ensures
            final(self)@ == old(self)@.initiate(p),
    {
        let next = match self {
            Tool::Rectangle { filled, opaque, .. } => Tool::Rectangle {
                top_left: p,
                bottom_right: p,
                size: Size::zero(),
                filled: *filled,
                opaque: *opaque,
            },
            Tool::Circle { filled, opaque, .. } => Tool::Circle { center: p, radius: 0, filled: *filled, opaque: *opaque },
            Tool::FreeHand { .. } => {
                let mut points: Vec<Point> = Vec::new();
                points.push(p);
                Tool::FreeHand { points }
            },
            Tool::Line { .. } => Tool::Line { start: p, end: p },
            Tool::Arrow { .. } => Tool::Arrow { start: p, end: p, right: p, left: p },
            Tool::Text { text, .. } => Tool::Text { anchor_point: p, text: text.clone() },
        };
        *self = next;
        assert(self@ =~~= old(self)@.initiate(p));
    }

    /// Reshapes the shape for a drag from `initial` to `current`.
    pub fn drag(&mut self, initial: Point, current: Point)
        ensures
            final(self)@ == old(self)@.drag(initial, current),
    {
        match self {
            Tool::Rectangle { top_left, bottom_right, size, .. } => {
                let (tl, br, sz) = span(initial, current);
                *top_left = tl;
                *bottom_right = br;
                *size = sz;
            },
            Tool::Circle { center, radius: r, .. } => {
                *center = initial;
                *r = radius(initial, current);
            },
            Tool::FreeHand { points } => {
                points.push(current);
            },
            Tool::Line { start, end } => {
                *start = initial;
                *end = current;
            },
            Tool::Arrow { start, end, right, left } => {
                let (rb, lb) = barbs(initial, current);
                *start = initial;
                *end = current;
                *right = rb;
                *left = lb;
            },
            Tool::Text { .. } => {},
        }
    }
}

/// An RGB colour.
#[derive(Clone, Copy, PartialEq, Eq, Structural, Debug)]
pub struct Rgb {
    pub r: u8,
    pub g: u8,
    pub b: u8,
}

/// A shape on the canvas: the tool that drew it, its colour and its
/// thickness step.
#[derive(Debug)]
pub struct DrawElement {
    pub tool: Tool,
    pub color: Rgb,
    pub size: u32,
}

pub struct DrawElementView {
    pub tool: ToolView,
    pub color: Rgb,
    pub size: u32,
}

impl View for DrawElement {
    type V = DrawElementView;

    open spec fn view(&self) -> DrawElementView {
        DrawElementView { tool: self.tool@, color: self.color, size: self.size }
    }
}

/// The colour and thickness step a new element starts with.
pub open spec fn default_color() -> Rgb {
    Rgb { r: 255, g: 0, b: 0 }
}

impl DrawElement {
    /// A new element holding `tool`, red, of thickness step 1.
    pub fn new(tool: Tool) -> (e: DrawElement)
        ensures
            e@ == (DrawElementView { tool: tool@, color: default_color(), size: 1 }),
    {
        DrawElement { tool, color: Rgb { r: 255, g: 0, b: 0 }, size: 1 }
    }

    pub fn duplicate(&self) -> (e: DrawElement)
        ensures
            e@ == self@,
    {
        DrawElement { tool: self.tool.duplicate(), color: self.color, size: self.size }
    }
}

} // verus!
