use vstd::prelude::*;

use crate::editor::{committed, quarter_turn, Command, Direction, EditorView, MessageView, Outcome};
use crate::geometry::{spanned, Point, Size};
use crate::mode::{window_selection, CropState, DrawState, ModeView};
use crate::picture::{corner_of, lemma_four_quarter_turns, lemma_quarter_turn_exists, quarter_turned};
use crate::render::{layer_of, shape_drawing_of, DrawOp, Layer, Paint};
use crate::tool::{arrow_barbs, DrawElementView, ToolKind, ToolView};

verus! {

/// Committed shapes are never changed nor removed: after any message the
/// list is the same or has one more shape at its end, and the cached
/// drawing is declared stale exactly when a shape was added.
pub proof fn lemma_shapes_only_grow(s: EditorView, m: MessageView, next: EditorView, out: Outcome)
    requires
        s.steps_to(m, next, out),
    ensures
        next.shapes == s.shapes || (exists|e: DrawElementView| next.shapes == s.shapes.push(e)),
        out.clear_cache <==> next.shapes.len() == s.shapes.len() + 1,
        next.shapes.len() >= s.shapes.len(),
{
    match m {
        MessageView::MousePressed => {
            if let ModeView::Draw { element, .. } = s.mode {
                if element.tool.is_valid() && element.tool.kind() == ToolKind::Text {
                    assert(next.shapes == s.shapes.push(element));
                }
            }
        },
        MessageView::MouseReleased => {
            if let ModeView::Draw { element, .. } = s.mode {
                if element.tool.is_valid() && element.tool.kind() != ToolKind::Text {
                    assert(next.shapes == s.shapes.push(element));
                }
            }
        },
        MessageView::ChangeTool(_) => {
            if let ModeView::Draw { element, .. } = s.mode {
                if element.tool.is_valid() {
                    assert(next.shapes == s.shapes.push(element));
                }
            }
        },
        _ => {},
    }
}

/// Window messages only ask the window to act: the editor is unchanged.
pub proof fn lemma_window_messages_keep_state(s: EditorView, m: MessageView)
    requires
        m is Drag || m is Maximize || m is NorthWest || m is North || m is NorthEast || m is West || m is East
            || m is South || m is SouthWest || m is SouthEast || m is Close,
    ensures
        s.step(m).0 == s,
        !s.step(m).1.clear_cache,
        s.step(m).1.command != Command::Nothing,
{
}

/// Pressing the button at `c` in crop mode and moving to `q` selects the
/// rectangle spanned by `c` and `q`, whatever the direction of the drag.
pub proof fn lemma_crop_drag_selects_span(s: EditorView, q: Point)
    requires
        s.mode is Crop,
    ensures
        ({
            let c = s.cursor_position;
            let after = s.step(MessageView::MousePressed).0.step(MessageView::MouseMoved(q)).0;
            after.mode == ModeView::Crop {
                top_left: spanned(c, q).0,
                bottom_right: spanned(c, q).1,
                size: spanned(c, q).2,
                state: CropState::InProgress { start: c, end: q },
            } && after.cursor_position == q
        }),
{
}

/// A drag in crop mode that ends away from where it started leaves the
/// dragged area selected.
pub proof fn lemma_crop_drag_release_keeps_area(s: EditorView, q: Point)
    requires
        s.mode is Crop,
        q != s.cursor_position,
    ensures
        ({
            let c = s.cursor_position;
            let after = s.step(MessageView::MousePressed).0.step(MessageView::MouseMoved(q)).0.step(
                MessageView::MouseReleased,
            ).0;
            after.mode == ModeView::Crop {
                top_left: spanned(c, q).0,
                bottom_right: spanned(c, q).1,
                size: spanned(c, q).2,
                state: CropState::Area,
            }
        }),
{
}

/// A click in crop mode, without moving, selects the window under the
/// cursor, or the whole picture when there is none.
pub proof fn lemma_click_selects_window(s: EditorView)
    requires
        s.mode is Crop,
    ensures
        s.step(MessageView::MousePressed).0.step(MessageView::MouseReleased).0.mode == window_selection(
            s.windows,
            s.cursor_position,
            corner_of(s.picture),
        ),
{
}

/// While the text tool is in use, moving the mouse changes nothing but the
/// cursor position.
pub proof fn lemma_text_tool_ignores_moves(s: EditorView, p: Point)
    requires
        s.mode matches ModeView::Draw { element, .. } && element.tool.kind() == ToolKind::Text,
    ensures
        s.step(MessageView::MouseMoved(p)).0 == (EditorView { cursor_position: p, ..s }),
{
}

/// Drawing a shape with any tool but text: press at `c`, drag to `q` and
/// release; the element's tool, started at `c` and dragged to `q`, is
/// committed if it is worth keeping, and the tool starts over.
pub proof fn lemma_drag_commits_shape(s: EditorView, q: Point)
    requires
        s.mode matches ModeView::Draw { element, .. } && element.tool.kind() != ToolKind::Text,
    ensures
        ({
            let c = s.cursor_position;
            let e = s.mode->Draw_element;
            let drawn = DrawElementView { tool: e.tool.initiate(c).drag(c, q), ..e };
            let (after, outcome) = s.step(MessageView::MousePressed).0.step(MessageView::MouseMoved(q)).0.step(
                MessageView::MouseReleased,
            );
            &&& after.shapes == committed(s.shapes, drawn).0
            &&& after.mode == ModeView::Draw { element: committed(s.shapes, drawn).1, state: DrawState::Idle }
            &&& outcome.clear_cache == drawn.tool.is_valid()
        }),
{
    let e = s.mode->Draw_element;
    assert(e.tool.initiate(s.cursor_position).kind() == e.tool.kind());
}

/// Four quarter turns of the picture give back the picture.
pub proof fn lemma_four_rotations(s: EditorView)
    requires
        s.wf(),
    ensures
        ({
            let r = MessageView::RotateImage;
            s.step(r).0.step(r).0.step(r).0.step(r).0 == s
        }),
{
    let w = s.picture.width as int;
    let h = s.picture.height as int;
    let p0 = s.picture;
    let p1 = quarter_turn(p0);
    let p2 = quarter_turn(p1);
    let p3 = quarter_turn(p2);
    let p4 = quarter_turn(p3);
    lemma_quarter_turn_exists(w, h, p0.pixels);
    assert(quarter_turned(w, h, p0.pixels, p1.pixels));
    assert(4 * w * h == 4 * h * w) by (nonlinear_arith);
    lemma_quarter_turn_exists(h, w, p1.pixels);
    assert(quarter_turned(h, w, p1.pixels, p2.pixels));
    lemma_quarter_turn_exists(w, h, p2.pixels);
    assert(quarter_turned(w, h, p2.pixels, p3.pixels));
    lemma_quarter_turn_exists(h, w, p3.pixels);
    assert(quarter_turned(h, w, p3.pixels, p4.pixels));
    lemma_four_quarter_turns(w, h, p0.pixels, p1.pixels, p2.pixels, p3.pixels, p4.pixels);
    assert(p4 == p0);
}

/// The text guide is the one thing the guide flag decides: for any element
/// that is not text, the drawing is the same with the guide asked for or not,
/// whatever the frame's width.
pub proof fn lemma_guide_only_for_text(e: DrawElementView, frame_width: i64)
    requires
        e.tool.kind() != ToolKind::Text,
    ensures
        shape_drawing_of(e, true, frame_width) == shape_drawing_of(e, false, frame_width),
        shape_drawing_of(e, true, frame_width).guide is None,
{
}

/// Once a crop area has been dragged out, moving the mouse only moves the
/// cursor: the area, its corners and size, stays selected.
pub proof fn lemma_moves_keep_finished_area(s: EditorView, p: Point, next: EditorView, out: Outcome)
    requires
        s.mode matches ModeView::Crop { state, .. } && state == CropState::Area,
        s.steps_to(MessageView::MouseMoved(p), next, out),
    ensures
        next.mode == s.mode,
        next.cursor_position == p,
        next.shapes == s.shapes,
        next.picture == s.picture,
        out.command == Command::Nothing,
        !out.clear_cache,
{
}

/// Each border or corner of the frame resizes the window from the edge or
/// corner of the same name.
pub proof fn lemma_resize_from_the_edge_pressed(s: EditorView, m: MessageView, next: EditorView, out: Outcome)
    requires
        s.steps_to(m, next, out),
    ensures
        m is NorthWest ==> out.command == Command::DragResize(Direction::NorthWest),
        m is North ==> out.command == Command::DragResize(Direction::North),
        m is NorthEast ==> out.command == Command::DragResize(Direction::NorthEast),
        m is West ==> out.command == Command::DragResize(Direction::West),
        m is East ==> out.command == Command::DragResize(Direction::East),
        m is South ==> out.command == Command::DragResize(Direction::South),
        m is SouthWest ==> out.command == Command::DragResize(Direction::SouthWest),
        m is SouthEast ==> out.command == Command::DragResize(Direction::SouthEast),
{
}

/// A circle is filled exactly when its tool says so; otherwise it is
/// outlined with a stroke twice the element's size wide, around the same
/// centre and with the same radius. The guide flag changes none of this.
pub proof fn lemma_circle_fill_follows_flag(e: DrawElementView, guide: bool, frame_width: i64)
    requires
        e.tool is Circle,
        e.size * 2 <= u32::MAX,
    ensures
        ({
            let op = shape_drawing_of(e, guide, frame_width).op;
            let (center, radius, filled, opaque) = (
                e.tool->Circle_center,
                e.tool->Circle_radius,
                e.tool->Circle_filled,
                e.tool->Circle_opaque,
            );
            &&& (op is FillCircle) <==> filled
            &&& (op is StrokeCircle) <==> !filled
            &&& filled ==> op == DrawOp::FillCircle {
                center,
                radius,
                paint: if opaque { Paint::Opaque } else { Paint::Translucent },
            }
            &&& !filled ==> op == DrawOp::StrokeCircle { center, radius, width: (2 * e.size) as u32 }
        }),
{
}

/// A rectangle is filled exactly when its tool says so; otherwise it is
/// outlined with a stroke twice the element's size wide.
pub proof fn lemma_rectangle_fill_follows_flag(e: DrawElementView, guide: bool, frame_width: i64)
    requires
        e.tool is Rectangle,
        e.size * 2 <= u32::MAX,
    ensures
        ({
            let op = shape_drawing_of(e, guide, frame_width).op;
            let (top_left, size, filled) = (e.tool->Rectangle_top_left, e.tool->Rectangle_size, e.tool->Rectangle_filled);
            &&& (op is FillRect) <==> filled
            &&& (op is StrokeRect) <==> !filled
            &&& !filled ==> op == DrawOp::StrokeRect { top_left, size, width: (2 * e.size) as u32 }
        }),
{
}

/// While drawing, the canvas shows the element at hand, with its guide, in
/// every state but idle (text being typed included); when idle it shows
/// nothing over the committed shapes.
pub proof fn lemma_layer_shows_shape_unless_idle(mode: ModeView, bounds: Size, frame_width: i64, r: Layer)
    requires
        mode is Draw,
        layer_of(mode, bounds, frame_width, r),
    ensures
        mode->Draw_state is Idle ==> r == Layer::Nothing,
        !(mode->Draw_state is Idle) ==> r == Layer::Shape(shape_drawing_of(mode->Draw_element, true, frame_width)),
        mode->Draw_state is TextInput && mode->Draw_element.tool is Text ==> (r matches Layer::Shape(d)
            && d.guide is Some),
{
}

/// The barbs of an arrow from `start` to `end` need no clamping to the
/// range of `i32`.
pub open spec fn arrow_head_unclamped(start: Point, end: Point) -> bool {
    let dx = end.x - start.x;
    let dy = end.y - start.y;
    let fits = |v: int| i32::MIN <= v <= i32::MAX;
    &&& fits(end.x + (-dx - dy) / 4)
    &&& fits(end.y + (dx - dy) / 4)
    &&& fits(end.x + (dy - dx) / 4)
    &&& fits(end.y + (-dx - dy) / 4)
}

/// `t * t + t * r`, for a remainder `r` of a division by four, is at least
/// `-2`, and at least `4` once `t` is four or more away from zero.
proof fn lemma_shaft_term(t: int, r: int)
    requires
        0 <= r <= 3,
    ensures
        t * t + t * r >= -2,
        (t >= 4 || t <= -4) ==> t * t + t * r >= 4,
        (t == 3 || t == -3) ==> t * t + t * r >= 0,
{
    if t >= 0 {
        assert(t * t >= 0) by (nonlinear_arith);
        assert(t * t + t * r >= t * t) by (nonlinear_arith)
            requires
                t >= 0,
                r >= 0,
        ;
        assert(t >= 4 ==> t * t >= 16) by (nonlinear_arith);
    } else {
        let u = -t;
        assert(t * t + t * r == u * (u - r)) by (nonlinear_arith)
            requires
                u == -t,
        ;
        if u == 1 {
            assert(u * (u - r) == 1 - r) by (nonlinear_arith)
                requires
                    u == 1,
            ;
        } else if u == 2 {
            assert(u * (u - r) == 4 - 2 * r) by (nonlinear_arith)
                requires
                    u == 2,
            ;
        } else {
            assert(u * (u - r) >= u * (u - 3)) by (nonlinear_arith)
                requires
                    u >= 3,
                    r <= 3,
            ;
            assert(u >= 4 ==> u * (u - 3) >= 4) by (nonlinear_arith);
            assert(u * (u - 3) >= 0) by (nonlinear_arith)
                requires
                    u >= 3,
            ;
        }
    }
}

/// `a * a + a * r + b * b + b * q` is positive when the shaft (a, b) is at
/// least four long and one of its components is at least four.
proof fn lemma_two_terms(a: int, b: int, r: int, q: int)
    requires
        0 <= r <= 3,
        0 <= q <= 3,
        a >= 4 || a <= -4 || b >= 4 || b <= -4,
    ensures
        a * a + a * r + b * b + b * q > 0,
{
    lemma_shaft_term(a, r);
    lemma_shaft_term(b, q);
}

/// A shaft at least four long whose components are both under four in
/// size has components of size three.
proof fn lemma_short_components(dx: int, dy: int)
    requires
        dx * dx + dy * dy >= 16,
        -3 <= dx <= 3,
        -3 <= dy <= 3,
    ensures
        dx == 3 || dx == -3,
        dy == 3 || dy == -3,
{
    assert(-2 <= dx <= 2 ==> dx * dx <= 4) by (nonlinear_arith);
    assert(-2 <= dy <= 2 ==> dy * dy <= 4) by (nonlinear_arith);
    assert(dx * dx <= 9) by (nonlinear_arith)
        requires
            -3 <= dx <= 3,
    ;
    assert(dy * dy <= 9) by (nonlinear_arith)
        requires
            -3 <= dy <= 3,
    ;
}

/// The head of an arrow points forward: for a shaft at least four pixels
/// long, both barbs lie behind the tip along the shaft, the right barb on
/// one side of the shaft and the left barb on the other.
pub proof fn lemma_arrow_head_points_forward(start: Point, end: Point)
    requires
        arrow_head_unclamped(start, end),
        (end.x - start.x) * (end.x - start.x) + (end.y - start.y) * (end.y - start.y) >= 16,
    ensures
        ({
            let (right, left) = arrow_barbs(start, end);
            let (dx, dy) = (end.x - start.x, end.y - start.y);
            &&& (right.x - end.x) * dx + (right.y - end.y) * dy < 0
            &&& (left.x - end.x) * dx + (left.y - end.y) * dy < 0
            &&& dx * (right.y - end.y) - dy * (right.x - end.x) > 0
            &&& dx * (left.y - end.y) - dy * (left.x - end.x) < 0
        }),
{
    let dx = end.x - start.x;
    let dy = end.y - start.y;
    let (right, left) = arrow_barbs(start, end);
    let q1 = (-dx - dy) / 4;
    let q2 = (dx - dy) / 4;
    let q3 = (dy - dx) / 4;
    let r1 = -dx - dy - 4 * q1;
    let r2 = dx - dy - 4 * q2;
    let r3 = dy - dx - 4 * q3;
    assert(0 <= r1 <= 3 && 0 <= r2 <= 3 && 0 <= r3 <= 3);
    assert(right == Point { x: (end.x + q1) as i32, y: (end.y + q2) as i32 });
    assert(left == Point { x: (end.x + q3) as i32, y: (end.y + q1) as i32 });
    // Each product, taken four times over, is a sum of shaft terms.
    assert(4 * (q1 * dx + q2 * dy) == -(dx * dx + dx * r1 + dy * dy + dy * r2)) by (nonlinear_arith)
        requires
            4 * q1 == -dx - dy - r1,
            4 * q2 == dx - dy - r2,
    ;
    assert(4 * (q3 * dx + q1 * dy) == -(dx * dx + dx * r3 + dy * dy + dy * r1)) by (nonlinear_arith)
        requires
            4 * q3 == dy - dx - r3,
            4 * q1 == -dx - dy - r1,
    ;
    assert(4 * (dx * q2 - dy * q1) == (-dx) * (-dx) + (-dx) * r2 + dy * dy + dy * r1) by (nonlinear_arith)
        requires
            4 * q1 == -dx - dy - r1,
            4 * q2 == dx - dy - r2,
    ;
    assert(4 * (dx * q1 - dy * q3) == -(dx * dx + dx * r1 + (-dy) * (-dy) + (-dy) * r3)) by (nonlinear_arith)
        requires
            4 * q1 == -dx - dy - r1,
            4 * q3 == dy - dx - r3,
    ;
    if dx >= 4 || dx <= -4 || dy >= 4 || dy <= -4 {
        lemma_two_terms(dx, dy, r1, r2);
        lemma_two_terms(dx, dy, r3, r1);
        lemma_two_terms(-dx, dy, r2, r1);
        lemma_two_terms(dx, -dy, r1, r3);
    } else {
        // The four shafts (3, 3), (3, -3), (-3, 3) and (-3, -3), one by one.
        lemma_short_components(dx, dy);
        if dx == 3 && dy == 3 {
            assert(q1 == -2 && q2 == 0 && q3 == 0);
        } else if dx == 3 && dy == -3 {
            assert(q1 == 0 && q2 == 1 && q3 == -2);
        } else if dx == -3 && dy == 3 {
            assert(q1 == 0 && q2 == -2 && q3 == 1);
        } else {
            assert(q1 == 1 && q2 == 0 && q3 == 0);
        }
    }
    assert(q1 * dx + q2 * dy < 0);
    assert(q3 * dx + q1 * dy < 0);
    assert(dx * q2 - dy * q1 > 0);
    assert(dx * q1 - dy * q3 < 0);
    assert((right.x - end.x) * dx + (right.y - end.y) * dy == q1 * dx + q2 * dy);
    assert((left.x - end.x) * dx + (left.y - end.y) * dy == q3 * dx + q1 * dy);
    assert(dx * (right.y - end.y) - dy * (right.x - end.x) == dx * q2 - dy * q1);
    assert(dx * (left.y - end.y) - dy * (left.x - end.x) == dx * q1 - dy * q3);
}

/// A point turned a quarter turn about the origin.
pub open spec fn turned(p: Point) -> Point {
    Point { x: (-p.y) as i32, y: p.x }
}

/// The arrow head turns with its shaft: turning both ends a quarter turn
/// about the origin turns both barbs the same way, up to the rounding of a
/// quarter of the shaft (at most one pixel, across the shaft).
pub proof fn lemma_arrow_head_turns_with_shaft(start: Point, end: Point)
    requires
        start.y > i32::MIN,
        end.y > i32::MIN,
        arrow_head_unclamped(start, end),
        arrow_head_unclamped(turned(start), turned(end)),
        arrow_barbs(start, end).0.y > i32::MIN,
        arrow_barbs(start, end).1.y > i32::MIN,
    ensures
        ({
            let (right, left) = arrow_barbs(start, end);
            let (right2, left2) = arrow_barbs(turned(start), turned(end));
            &&& right2.y == turned(right).y
            &&& turned(right).x - 1 <= right2.x <= turned(right).x
            &&& left2.y == turned(left).y
            &&& turned(left).x - 1 <= left2.x <= turned(left).x
        }),
{
    let dx = end.x - start.x;
    let dy = end.y - start.y;
    let (right, left) = arrow_barbs(start, end);
    let q1 = (-dx - dy) / 4;
    let q2 = (dx - dy) / 4;
    let q3 = (dy - dx) / 4;
    let p1 = (dx + dy) / 4;
    assert(right == Point { x: (end.x + q1) as i32, y: (end.y + q2) as i32 });
    assert(left == Point { x: (end.x + q3) as i32, y: (end.y + q1) as i32 });
    let (s2, e2) = (turned(start), turned(end));
    assert(e2.x - s2.x == -dy && e2.y - s2.y == dx);
    let (right2, left2) = arrow_barbs(s2, e2);
    assert(right2 == Point { x: (e2.x + q3) as i32, y: (e2.y + q1) as i32 });
    assert(left2 == Point { x: (e2.x + p1) as i32, y: (e2.y + q3) as i32 });
    // Rounding down a number and its negation differ by at most one.
    assert(-q2 - 1 <= q3 <= -q2);
    assert(-q1 - 1 <= p1 <= -q1);
    assert(turned(right) == Point { x: (-end.y - q2) as i32, y: (end.x + q1) as i32 });
    assert(turned(left) == Point { x: (-end.y - q1) as i32, y: (end.x + q3) as i32 });
}

} // verus!
