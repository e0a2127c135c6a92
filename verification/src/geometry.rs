use vstd::prelude::*;

verus! {

/// A position on the canvas, in whole logical pixels.
#[derive(Clone, Copy, PartialEq, Eq, Structural, Debug)]
pub struct Point {
    pub x: i32,
    pub y: i32,
}

/// A width and a height, in whole logical pixels.
#[derive(Clone, Copy, PartialEq, Eq, Structural, Debug)]
pub struct Size {
    pub width: u32,
    pub height: u32,
}

impl Point {
    pub fn new(x: i32, y: i32) -> (p: Point)
        ensures
            p.x == x,
            p.y == y,
    {
        Point { x, y }
    }

    pub fn origin() -> (p: Point)
        ensures
            p.x == 0,
            p.y == 0,
    {
        Point { x: 0, y: 0 }
    }
}

impl Size {
    pub fn new(width: u32, height: u32) -> (s: Size)
        ensures
            s.width == width,
            s.height == height,
    {
        Size { width, height }
    }

    pub fn zero() -> (s: Size)
        ensures
            s.width == 0,
            s.height == 0,
    {
        Size { width: 0, height: 0 }
    }
}

pub open spec fn min_int(a: int, b: int) -> int {
    if a <= b {
        a
    } else {
        b
    }
}

pub open spec fn max_int(a: int, b: int) -> int {
    if a <= b {
        b
    } else {
        a
    }
}

/// The rectangle spanned by a drag from `start` to `end`: its top-left
/// corner, its bottom-right corner and its size.
pub open spec fn spanned(start: Point, end: Point) -> (Point, Point, Size) {
    let top_left = Point { x: min_int(start.x as int, end.x as int) as i32, y: min_int(start.y as int, end.y as int) as i32 };
    let bottom_right = Point { x: max_int(start.x as int, end.x as int) as i32, y: max_int(start.y as int, end.y as int) as i32 };
    let size = Size {
        width: (bottom_right.x - top_left.x) as u32,
        height: (bottom_right.y - top_left.y) as u32,
    };
    (top_left, bottom_right, size)
}

/// A point lies in the closed rectangle with corners `top_left` and `bottom_right`.
pub open spec fn within(p: Point, top_left: Point, bottom_right: Point) -> bool {
    &&& top_left.x <= p.x <= bottom_right.x
    &&& top_left.y <= p.y <= bottom_right.y
}

fn min_i32(a: i32, b: i32) -> (r: i32)
    ensures
        r == min_int(a as int, b as int),
{
    if a <= b {
        a
    } else {
        b
    }
}

fn max_i32(a: i32, b: i32) -> (r: i32)
    ensures
        r == max_int(a as int, b as int),
{
    if a <= b {
        b
    } else {
        a
    }
}

/// The normalised rectangle of a drag: the top-left corner takes the
/// smaller coordinates, the bottom-right corner the larger ones, and the
/// size is their difference.
pub fn span(start: Point, end: Point) -> (r: (Point, Point, Size))
    ensures
        r == spanned(start, end),
        r.0.x <= r.1.x,
        r.0.y <= r.1.y,
        r.2.width == r.1.x - r.0.x,
        r.2.height == r.1.y - r.0.y,
{
    let top_left = Point { x: min_i32(start.x, end.x), y: min_i32(start.y, end.y) };
    let bottom_right = Point { x: max_i32(start.x, end.x), y: max_i32(start.y, end.y) };
    let width = (bottom_right.x as i64 - top_left.x as i64) as u32;
    let height = (bottom_right.y as i64 - top_left.y as i64) as u32;
    (top_left, bottom_right, Size { width, height })
}

/// The rectangle spanned by a drag does not depend on its direction.
pub proof fn lemma_span_symmetric(a: Point, b: Point)
    ensures
        spanned(a, b) == spanned(b, a),
{
}

/// The rectangle spanned by a drag is normalised, its size is the distance
/// between its corners, and it holds both ends of the drag.
pub proof fn lemma_span_holds_ends(a: Point, b: Point)
    ensures
        spanned(a, b).0.x <= spanned(a, b).1.x,
        spanned(a, b).0.y <= spanned(a, b).1.y,
        spanned(a, b).2.width == spanned(a, b).1.x - spanned(a, b).0.x,
        spanned(a, b).2.height == spanned(a, b).1.y - spanned(a, b).0.y,
        within(a, spanned(a, b).0, spanned(a, b).1),
        within(b, spanned(a, b).0, spanned(a, b).1),
{
}

/// A drag that does not move spans an empty rectangle at its point.
pub proof fn lemma_span_of_click(a: Point)
    ensures
        spanned(a, a) == (a, a, Size { width: 0, height: 0 }),
{
}

} // verus!
