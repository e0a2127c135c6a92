use vstd::prelude::*;

use crate::geometry::{Point, Size};
use crate::mode::{Mode, ModeView};
use crate::tool::{DrawElement, DrawElementView, Rgb, Tool, ToolKind, ToolView};

verus! {

/// Thickness of a stroke, per step of an element's size.
pub const STROKE_WIDTH_FACTOR: u32 = 2;

/// Height of text, per step of an element's size.
pub const FONT_SIZE_FACTOR: u32 = 12;

/// An axis-aligned rectangle on the canvas; it covers the points with
/// `x <= px < x + width` and `y <= py < y + height`.
#[derive(Clone, Copy, PartialEq, Eq, Structural, Debug)]
pub struct Area {
    pub x: i64,
    pub y: i64,
    pub width: i64,
    pub height: i64,
}

impl Area {
    pub open spec fn covers(self, px: int, py: int) -> bool {
        self.x <= px < self.x + self.width && self.y <= py < self.y + self.height
    }

    pub open spec fn area(self) -> int {
        self.width * self.height
    }
}

/// The four shaded bands around a crop selection from `top_left` to
/// `bottom_right` on a canvas of size `bounds`: above it, below it, left of
/// it and right of it.
pub open spec fn overlay_bands(bounds: Size, top_left: Point, bottom_right: Point) -> [Area; 4] {
    [
        Area { x: 0, y: 0, width: bounds.width as i64, height: top_left.y as i64 },
        Area {
            x: 0,
            y: bottom_right.y as i64,
            width: bounds.width as i64,
            height: (bounds.height - bottom_right.y) as i64,
        },
        Area {
            x: 0,
            y: top_left.y as i64,
            width: top_left.x as i64,
            height: (bottom_right.y - top_left.y) as i64,
        },
        Area {
            x: bottom_right.x as i64,
            y: top_left.y as i64,
            width: (bounds.width - bottom_right.x) as i64,
            height: (bottom_right.y - top_left.y) as i64,
        },
    ]
}

/// The shaded bands around a crop selection.
pub fn crop_overlay(bounds: Size, top_left: Point, bottom_right: Point) -> (r: [Area; 4])
    ensures
        r@ == overlay_bands(bounds, top_left, bottom_right)@,
{
    let w = bounds.width as i64;
    let h = bounds.height as i64;
    let tlx = top_left.x as i64;
    let tly = top_left.y as i64;
    let brx = bottom_right.x as i64;
    let bry = bottom_right.y as i64;
    let r = [
        Area { x: 0, y: 0, width: w, height: tly },
        Area { x: 0, y: bry, width: w, height: h - bry },
        Area { x: 0, y: tly, width: tlx, height: bry - tly },
        Area { x: brx, y: tly, width: w - brx, height: bry - tly },
    ];
    assert(r@ =~= overlay_bands(bounds, top_left, bottom_right)@);
    r
}

/// The selection lies on the canvas.
pub open spec fn selection_on_canvas(bounds: Size, top_left: Point, bottom_right: Point) -> bool {
    &&& 0 <= top_left.x <= bottom_right.x <= bounds.width
    &&& 0 <= top_left.y <= bottom_right.y <= bounds.height
}

/// When the selection lies on the canvas, the selection and the four bands
/// tile the canvas: every point of the canvas is in the selection or in
/// exactly one band, no band reaches outside the canvas or into the
/// selection, and the areas add up to the canvas's.
pub proof fn lemma_overlay_tiles_canvas(bounds: Size, top_left: Point, bottom_right: Point, px: int, py: int)
    requires
        selection_on_canvas(bounds, top_left, bottom_right),
    ensures
        ({
            let b = overlay_bands(bounds, top_left, bottom_right);
            let sel = Area {
                x: top_left.x as i64,
                y: top_left.y as i64,
                width: (bottom_right.x - top_left.x) as i64,
                height: (bottom_right.y - top_left.y) as i64,
            };
            let canvas = Area { x: 0, y: 0, width: bounds.width as i64, height: bounds.height as i64 };
            &&& forall|k: int| 0 <= k < 4 ==> b[k].width >= 0 && b[k].height >= 0
            &&& canvas.covers(px, py) ==> (sel.covers(px, py) || b[0].covers(px, py) || b[1].covers(px, py)
                || b[2].covers(px, py) || b[3].covers(px, py))
            &&& forall|k: int| 0 <= k < 4 ==> (b[k].covers(px, py) ==> canvas.covers(px, py) && !sel.covers(px, py))
            &&& forall|k: int, l: int| 0 <= k < l < 4 ==> !(b[k].covers(px, py) && b[l].covers(px, py))
            &&& b[0].area() + b[1].area() + b[2].area() + b[3].area() + sel.area() == canvas.area()
        }),
{
    let b = overlay_bands(bounds, top_left, bottom_right);
    let w = bounds.width as int;
    let h = bounds.height as int;
    let x0 = top_left.x as int;
    let y0 = top_left.y as int;
    let x1 = bottom_right.x as int;
    let y1 = bottom_right.y as int;
    assert(w * y0 + w * (h - y1) + x0 * (y1 - y0) + (w - x1) * (y1 - y0) + (x1 - x0) * (y1 - y0) == w * h)
        by (nonlinear_arith);
}

/// Length of the marks drawn at each end of a selection edge of length
/// `d`, in quarter pixels: 20 pixels, or a quarter of a short edge.
pub open spec fn corner_mark(d: int) -> int {
    if d > 80 {
        80
    } else {
        d
    }
}

/// The dash pattern that marks the corners of a selection of size `s`, in
/// quarter pixels: a mark, a gap, a mark and nothing along the width, then
/// the same along the height.
pub open spec fn corner_dashes(s: Size) -> Seq<int> {
    let a = corner_mark(s.width as int);
    let b = corner_mark(s.height as int);
    seq![a, 4 * s.width - 2 * a, a, 0, b, 4 * s.height - 2 * b, b, 0]
}

fn mark(d: u32) -> (r: u64)
    ensures
        r == corner_mark(d as int),
{
    if d > 80 {
        80
    } else {
        d as u64
    }
}

/// The corner dash pattern, in quarter pixels.
pub fn dash_pattern(s: Size) -> (r: [u64; 8])
    ensures
        forall|i: int| 0 <= i < 8 ==> r@[i] == #[trigger] corner_dashes(s)[i],
{
    let a = mark(s.width);
    let b = mark(s.height);
    let w = s.width as u64;
    let h = s.height as u64;
    [a, 4 * w - 2 * a, a, 0, b, 4 * h - 2 * b, b, 0]
}

/// The corner dash pattern is as long as half the selection's perimeter,
/// so it runs exactly twice around the selection and every corner gets a
/// mark on each side; no dash or gap is negative.
pub proof fn lemma_dashes_span_half_perimeter(s: Size)
    ensures
        corner_dashes(s)[0] + corner_dashes(s)[1] + corner_dashes(s)[2] + corner_dashes(s)[3] + corner_dashes(s)[4]
            + corner_dashes(s)[5] + corner_dashes(s)[6] + corner_dashes(s)[7] == 4 * (s.width + s.height),
        forall|i: int| 0 <= i < 8 ==> #[trigger] corner_dashes(s)[i] >= 0,
{
}

/// How a closed shape is filled.
#[derive(Clone, Copy, PartialEq, Eq, Structural, Debug)]
pub enum Paint {
    Opaque,
    Translucent,
}

/// One drawing operation for a shape; polylines and text take their
/// points and their content from the element that was planned.
#[derive(Clone, Copy, PartialEq, Eq, Structural, Debug)]
pub enum DrawOp {
    FillRect { top_left: Point, size: Size, paint: Paint },
    StrokeRect { top_left: Point, size: Size, width: u32 },
    FillCircle { center: Point, radius: u64, paint: Paint },
    StrokeCircle { center: Point, radius: u64, width: u32 },
    StrokePolyline { width: u32 },
    StrokeLine { start: Point, end: Point, width: u32 },
    /// The shaft from `start` to `end`, then the head from `right` through `end` to `left`.
    StrokeArrow { start: Point, end: Point, right: Point, left: Point, width: u32 },
    Text { x: i64, y: i64, font_size: u32 },
}

/// A shape's drawing: its colour, its operation, and for text being typed
/// a guide frame from the text's top-left corner.
#[derive(Clone, Copy, PartialEq, Eq, Structural, Debug)]
pub struct ShapeDrawing {
    pub color: Rgb,
    pub op: DrawOp,
    pub guide: Option<Area>,
}

pub open spec fn fill_paint(opaque: bool) -> Paint {
    if opaque {
        Paint::Opaque
    } else {
        Paint::Translucent
    }
}

/// The size of an element fits the stroke arithmetic, and for text the
/// font arithmetic too.
pub open spec fn size_fits(e: DrawElementView) -> bool {
    &&& e.size * STROKE_WIDTH_FACTOR <= u32::MAX
    &&& e.tool.kind() == ToolKind::Text ==> e.size * FONT_SIZE_FACTOR <= u32::MAX
}

/// Whether an element's size can be drawn.
pub fn drawable(element: &DrawElement) -> (b: bool)
    ensures
        b == size_fits(element@),
{
    element.size <= u32::MAX / STROKE_WIDTH_FACTOR && (!element.tool.is_text_tool() || element.size
        <= u32::MAX / FONT_SIZE_FACTOR)
}

/// How an element is drawn: rectangles and circles filled or stroked,
/// freehand lines, lines and arrows stroked with width `2 * size`, and
/// text of height `12 * size` whose top edge is half that height above its
/// anchor; with `guide`, text also gets a frame from its top-left corner
/// to the canvas's right edge at `frame_width`.
pub open spec fn shape_drawing_of(e: DrawElementView, guide: bool, frame_width: i64) -> ShapeDrawing {
    let width = (e.size * STROKE_WIDTH_FACTOR) as u32;
    let op_guide: (DrawOp, Option<Area>) = match e.tool {
        ToolView::Rectangle { top_left, size, filled, opaque, .. } => (
            if filled {
                DrawOp::FillRect { top_left, size, paint: fill_paint(opaque) }
            } else {
                DrawOp::StrokeRect { top_left, size, width }
            },
            None,
        ),
        ToolView::Circle { center, radius, filled, opaque } => (
            if filled {
                DrawOp::FillCircle { center, radius, paint: fill_paint(opaque) }
            } else {
                DrawOp::StrokeCircle { center, radius, width }
            },
            None,
        ),
        ToolView::FreeHand { .. } => (DrawOp::StrokePolyline { width }, None),
        ToolView::Line { start, end } => (DrawOp::StrokeLine { start, end, width }, None),
        ToolView::Arrow { start, end, right, left } => (DrawOp::StrokeArrow { start, end, right, left, width }, None),
        ToolView::Text { anchor_point, .. } => {
            let font_size = (e.size * FONT_SIZE_FACTOR) as u32;
            let top = anchor_point.y - font_size / 2;
            (
                DrawOp::Text { x: anchor_point.x as i64, y: top as i64, font_size },
                if guide {
                    Some(
                        Area {
                            x: anchor_point.x as i64,
                            y: top as i64,
                            width: (frame_width - anchor_point.x) as i64,
                            height: font_size as i64,
                        },
                    )
                } else {
                    None
                },
            )
        },
    };
    ShapeDrawing { color: e.color, op: op_guide.0, guide: op_guide.1 }
}

fn paint_of(opaque: bool) -> (p: Paint)
    ensures
        p == fill_paint(opaque),
{
    if opaque {
        Paint::Opaque
    } else {
        Paint::Translucent
    }
}

/// Plans the drawing of an element.
pub fn draw_shape(element: &DrawElement, guide: bool, frame_width: i64) -> (r: ShapeDrawing)
    requires
        size_fits(element@),
        -0x1_0000_0000 <= frame_width <= 0x1_0000_0000,
    ensures
        r == shape_drawing_of(element@, guide, frame_width),
{
    let width = element.size * STROKE_WIDTH_FACTOR;
    let (op, g) = match &element.tool {
        Tool::Rectangle { top_left, size, filled, opaque, .. } => (
            if *filled {
                DrawOp::FillRect { top_left: *top_left, size: *size, paint: paint_of(*opaque) }
            } else {
                DrawOp::StrokeRect { top_left: *top_left, size: *size, width }
            },
            None,
        ),
        Tool::Circle { center, radius, filled, opaque } => (
            if *filled {
                DrawOp::FillCircle { center: *center, radius: *radius, paint: paint_of(*opaque) }
            } else {
                DrawOp::StrokeCircle { center: *center, radius: *radius, width }
            },
            None,
        ),
        Tool::FreeHand { .. } => (DrawOp::StrokePolyline { width }, None),
        Tool::Line { start, end } => (DrawOp::StrokeLine { start: *start, end: *end, width }, None),
        Tool::Arrow { start, end, right, left } => (
            DrawOp::StrokeArrow { start: *start, end: *end, right: *right, left: *left, width },
            None,
        ),
        Tool::Text { anchor_point, .. } => {
            let font_size = element.size * FONT_SIZE_FACTOR;
            let top = anchor_point.y as i64 - (font_size / 2) as i64;
            (
                DrawOp::Text { x: anchor_point.x as i64, y: top, font_size },
                if guide {
                    Some(
                        Area {
                            x: anchor_point.x as i64,
                            y: top,
                            width: frame_width - anchor_point.x as i64,
                            height: font_size as i64,
                        },
                    )
                } else {
                    None
                },
            )
        },
    };
    ShapeDrawing { color: element.color, op, guide: g }
}

/// What the canvas draws on top of the committed shapes.
#[derive(Clone, Copy, Debug)]
pub enum Layer {
    /// Nothing: drawing, with no shape under way.
    Nothing,
    /// The shape being drawn.
    Shape(ShapeDrawing),
    /// The crop selection: its shaded bands, the selection itself, and the
    /// corner marks (in quarter pixels) to stroke along its edge.
    Crop { bands: [Area; 4], top_left: Point, size: Size, dashes: [u64; 8] },
}

/// The layer the canvas draws for `mode`.
pub open spec fn layer_of(mode: ModeView, bounds: Size, frame_width: i64, r: Layer) -> bool {
    match mode {
        ModeView::Draw { element, .. } => if mode.allows_drawing() {
            r == Layer::Shape(shape_drawing_of(element, true, frame_width))
        } else {
            r == Layer::Nothing
        },
        ModeView::Crop { top_left, bottom_right, size, .. } => r matches Layer::Crop { bands, top_left: t, size: z, dashes }
            && bands@ == overlay_bands(bounds, top_left, bottom_right)@ && t == top_left && z == size && (forall|i: int|
            0 <= i < 8 ==> dashes@[i] == #[trigger] corner_dashes(size)[i]),
    }
}

/// Plans the layer the canvas draws for `mode`.
pub fn canvas_layer(mode: &Mode, bounds: Size, frame_width: i64) -> (r: Layer)
    requires
        mode@ matches ModeView::Draw { element, .. } ==> size_fits(element),
        -0x1_0000_0000 <= frame_width <= 0x1_0000_0000,
    ensures
        layer_of(mode@, bounds, frame_width, r),
{
    match mode {
        Mode::Draw { element, .. } => {
            if mode.allows_drawing() {
                Layer::Shape(draw_shape(element, true, frame_width))
            } else {
                Layer::Nothing
            }
        },
        Mode::Crop { top_left, bottom_right, size, .. } => Layer::Crop {
            bands: crop_overlay(bounds, *top_left, *bottom_right),
            top_left: *top_left,
            size: *size,
            dashes: dash_pattern(*size),
        },
    }
}

} // verus!
