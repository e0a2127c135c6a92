use dragwin::editor::Message;
use dragwin::geometry::{Point, Size};
use dragwin::mode::{CropState, DrawState, Mode};
use dragwin::render::{canvas_layer, crop_overlay, dash_pattern, draw_shape, drawable, Area, DrawOp, Layer, Paint};
use dragwin::tool::{DrawElement, Rgb, Tool, ToolKind};
use dragwin::ui::{
    action_look, canvas_message, toolbar_tint, toolbar_tints, Backdrop, ButtonStatus, CanvasEvent, IconTint,
    MouseButton, TextTone,
};

fn pt(x: i32, y: i32) -> Point {
    Point { x, y }
}

#[test]
fn overlay_bands_surround_the_selection() {
    let bands = crop_overlay(Size { width: 100, height: 80 }, pt(20, 10), pt(60, 50));
    assert_eq!(bands[0], Area { x: 0, y: 0, width: 100, height: 10 });
    assert_eq!(bands[1], Area { x: 0, y: 50, width: 100, height: 30 });
    assert_eq!(bands[2], Area { x: 0, y: 10, width: 20, height: 40 });
    assert_eq!(bands[3], Area { x: 60, y: 10, width: 40, height: 40 });
    let total: i64 = bands.iter().map(|a| a.width * a.height).sum::<i64>() + 40 * 40;
    assert_eq!(total, 100 * 80);
}

#[test]
fn corner_marks_are_capped_at_twenty_pixels() {
    assert_eq!(dash_pattern(Size { width: 100, height: 40 }), [80, 240, 80, 0, 40, 80, 40, 0]);
    assert_eq!(dash_pattern(Size { width: 81, height: 80 }), [80, 164, 80, 0, 80, 160, 80, 0]);
    assert_eq!(dash_pattern(Size { width: 0, height: 0 }), [0; 8]);
}

#[test]
fn shapes_are_filled_or_stroked() {
    let mut e = DrawElement::new(Tool::Rectangle {
        top_left: pt(1, 2),
        bottom_right: pt(4, 6),
        size: Size { width: 3, height: 4 },
        filled: true,
        opaque: false,
    });
    e.size = 3;
    let d = draw_shape(&e, false, 500);
    assert_eq!(d.op, DrawOp::FillRect { top_left: pt(1, 2), size: Size { width: 3, height: 4 }, paint: Paint::Translucent });
    assert_eq!(d.color, Rgb { r: 255, g: 0, b: 0 });
    assert_eq!(d.guide, None);
    e.tool = Tool::Line { start: pt(0, 0), end: pt(5, 5) };
    assert_eq!(draw_shape(&e, true, 500).op, DrawOp::StrokeLine { start: pt(0, 0), end: pt(5, 5), width: 6 });
}

#[test]
fn text_sits_half_its_height_above_the_anchor() {
    let mut e = DrawElement::new(Tool::Text { anchor_point: pt(30, 100), text: String::from("x") });
    e.size = 2;
    let d = draw_shape(&e, true, 200);
    assert_eq!(d.op, DrawOp::Text { x: 30, y: 88, font_size: 24 });
    assert_eq!(d.guide, Some(Area { x: 30, y: 88, width: 170, height: 24 }));
    assert_eq!(draw_shape(&e, false, 200).guide, None);
}

#[test]
fn canvas_layer_follows_the_mode() {
    let crop = Mode::Crop {
        top_left: pt(10, 10),
        bottom_right: pt(30, 20),
        size: Size { width: 20, height: 10 },
        state: CropState::Area,
    };
    match canvas_layer(&crop, Size { width: 50, height: 50 }, 50) {
        Layer::Crop { bands, top_left, size, dashes } => {
            assert_eq!(bands[3], Area { x: 30, y: 10, width: 20, height: 10 });
            assert_eq!(top_left, pt(10, 10));
            assert_eq!(size, Size { width: 20, height: 10 });
            assert_eq!(dashes, [20, 40, 20, 0, 10, 20, 10, 0]);
        }
        _ => panic!("expected the crop layer"),
    }
    let idle = Mode::Draw { element: DrawElement::new(Tool::fresh(ToolKind::Line)), state: DrawState::Idle };
    assert!(matches!(canvas_layer(&idle, Size { width: 50, height: 50 }, 50), Layer::Nothing));
    let busy = Mode::Draw {
        element: DrawElement::new(Tool::Line { start: pt(1, 1), end: pt(2, 2) }),
        state: DrawState::InProgress { initial_pt: pt(1, 1), final_pt: pt(2, 2) },
    };
    match canvas_layer(&busy, Size { width: 50, height: 50 }, 50) {
        Layer::Shape(d) => assert_eq!(d.op, DrawOp::StrokeLine { start: pt(1, 1), end: pt(2, 2), width: 2 }),
        _ => panic!("expected the shape layer"),
    }
}

#[test]
fn canvas_events_become_messages() {
    assert!(matches!(canvas_message(CanvasEvent::CursorMoved, Some(pt(3, 4))), Some(Message::MouseMoved(p)) if p == pt(3, 4)));
    assert!(matches!(canvas_message(CanvasEvent::CursorMoved, None), Some(Message::MouseMoved(p)) if p == pt(0, 0)));
    assert!(matches!(canvas_message(CanvasEvent::ButtonPressed(MouseButton::Left), None), Some(Message::MousePressed)));
    assert!(matches!(canvas_message(CanvasEvent::ButtonReleased(MouseButton::Left), None), Some(Message::MouseReleased)));
    assert!(canvas_message(CanvasEvent::ButtonPressed(MouseButton::Right), None).is_none());
    assert!(canvas_message(CanvasEvent::Other, Some(pt(1, 1))).is_none());
}

#[test]
fn toolbar_highlights_the_tool_in_use() {
    assert_eq!(toolbar_tint(true), IconTint::Highlight);
    assert_eq!(toolbar_tint(false), IconTint::Plain);
    let crop = Mode::Crop { top_left: pt(0, 0), bottom_right: pt(0, 0), size: Size { width: 0, height: 0 }, state: CropState::FullScreen };
    assert!(toolbar_tints(&crop).iter().all(|t| *t == IconTint::Plain));
    let drawing = Mode::Draw { element: DrawElement::new(Tool::fresh(ToolKind::Arrow)), state: DrawState::Idle };
    let tints = toolbar_tints(&drawing);
    assert_eq!(tints.len(), 6);
    assert_eq!(tints[4], IconTint::Highlight);
    assert_eq!(tints.iter().filter(|t| **t == IconTint::Highlight).count(), 1);
}

#[test]
fn action_buttons_look_by_status() {
    let hovered = action_look(ButtonStatus::Hovered);
    assert_eq!((hovered.backdrop, hovered.text), (Backdrop::Strongest, TextTone::InverseStrong));
    let disabled = action_look(ButtonStatus::Disabled);
    assert_eq!((disabled.backdrop, disabled.text), (Backdrop::Black, TextTone::Strong));
    let pressed = action_look(ButtonStatus::Pressed);
    assert_eq!((pressed.backdrop, pressed.text), (Backdrop::Transparent, TextTone::Strong));
}

#[test]
fn all_tools_come_fresh_in_toolbar_order() {
    let kinds: Vec<ToolKind> = Tool::all().iter().map(|t| t.kind()).collect();
    assert_eq!(
        kinds,
        vec![ToolKind::Rectangle, ToolKind::Circle, ToolKind::FreeHand, ToolKind::Line, ToolKind::Arrow, ToolKind::Text]
    );
    assert!(Tool::all().iter().all(|t| !t.is_valid()));
}

#[test]
fn only_text_needs_room_for_its_font() {
    let big = u32::MAX / 2;
    let mut line = DrawElement::new(Tool::Line { start: pt(0, 0), end: pt(1, 1) });
    line.size = big;
    assert!(drawable(&line));
    assert_eq!(draw_shape(&line, false, 10).op, DrawOp::StrokeLine { start: pt(0, 0), end: pt(1, 1), width: big * 2 });
    line.size = big + 1;
    assert!(!drawable(&line));
    let mut label = DrawElement::new(Tool::Text { anchor_point: pt(0, 0), text: String::from("a") });
    label.size = big;
    assert!(!drawable(&label));
    label.size = u32::MAX / 12;
    assert!(drawable(&label));
}

#[test]
fn the_guide_flag_only_matters_for_text() {
    let tools = vec![
        Tool::Line { start: pt(3, 4), end: pt(40, 50) },
        Tool::Arrow { start: pt(0, 0), end: pt(40, 0), right: pt(30, 10), left: pt(30, -10) },
        Tool::Circle { center: pt(9, 9), radius: 5, filled: false, opaque: true },
        Tool::FreeHand { points: vec![pt(1, 1), pt(2, 2)] },
    ];
    for tool in tools {
        let e = DrawElement::new(tool);
        assert_eq!(draw_shape(&e, true, 300), draw_shape(&e, false, 300));
        assert_eq!(draw_shape(&e, true, 300).guide, None);
    }
}
