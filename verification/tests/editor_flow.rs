use dragwin::editor::{Command, Direction, Editor, Message};
use dragwin::geometry::{span, Point, Size};
use dragwin::mode::{CropState, DrawState, Mode, WindowRect};
use dragwin::picture::Picture;
use dragwin::tool::{Tool, ToolKind};

fn pt(x: i32, y: i32) -> Point {
    Point { x, y }
}

fn picture_2x1() -> Picture {
    // red pixel, then green pixel
    Picture::new(2, 1, vec![255, 0, 0, 255, 0, 255, 0, 128]).unwrap()
}

fn windows() -> Vec<WindowRect> {
    vec![
        WindowRect { top_left: pt(10, 10), bottom_right: pt(50, 40) },
        WindowRect { top_left: pt(0, 0), bottom_right: pt(100, 100) },
    ]
}

/// An editor over a blank 200 x 150 screenshot.
fn editor() -> Editor {
    Editor::new(Picture::new(200, 150, vec![0; 200 * 150 * 4]).unwrap(), windows())
}

/// An editor over the two-pixel picture.
fn small_editor() -> Editor {
    Editor::new(picture_2x1(), windows())
}

fn crop_rect(mode: &Mode) -> (Point, Point, Size, CropState) {
    match mode {
        Mode::Crop { top_left, bottom_right, size, state } => (*top_left, *bottom_right, *size, *state),
        Mode::Draw { .. } => panic!("expected crop mode"),
    }
}

#[test]
fn span_normalises_a_reversed_drag() {
    let (tl, br, size) = span(pt(30, 5), pt(10, 25));
    assert_eq!(tl, pt(10, 5));
    assert_eq!(br, pt(30, 25));
    assert_eq!(size, Size { width: 20, height: 20 });
    assert_eq!(span(pt(10, 25), pt(30, 5)), span(pt(30, 5), pt(10, 25)));
    assert_eq!(span(pt(7, 7), pt(7, 7)), (pt(7, 7), pt(7, 7), Size { width: 0, height: 0 }));
}

#[test]
fn new_editor_selects_the_whole_screen() {
    let e = editor();
    let (tl, br, size, state) = crop_rect(&e.mode);
    assert_eq!(tl, pt(0, 0));
    assert_eq!(br, pt(200, 150));
    assert_eq!(size, Size { width: 200, height: 150 });
    assert_eq!(state, CropState::FullScreen);
    assert!(e.shapes.is_empty());
}

#[test]
fn crop_drag_selects_the_spanned_area() {
    let mut e = editor();
    e.update(Message::MouseMoved(pt(120, 90)));
    e.update(Message::MousePressed);
    e.update(Message::MouseMoved(pt(60, 130)));
    let (tl, br, size, state) = crop_rect(&e.mode);
    assert_eq!(tl, pt(60, 90));
    assert_eq!(br, pt(120, 130));
    assert_eq!(size, Size { width: 60, height: 40 });
    assert_eq!(state, CropState::InProgress { start: pt(120, 90), end: pt(60, 130) });
    let out = e.update(Message::MouseReleased);
    assert_eq!(out.command, Command::Nothing);
    assert!(!out.clear_cache);
    let (tl, br, _, state) = crop_rect(&e.mode);
    assert_eq!((tl, br, state), (pt(60, 90), pt(120, 130), CropState::Area));
}

#[test]
fn hovering_selects_the_topmost_window_under_the_cursor() {
    let mut e = editor();
    e.update(Message::MouseMoved(pt(20, 20)));
    let (tl, br, size, state) = crop_rect(&e.mode);
    assert_eq!((tl, br, state), (pt(10, 10), pt(50, 40), CropState::Window(0)));
    assert_eq!(size, Size { width: 40, height: 30 });
    e.update(Message::MouseMoved(pt(80, 80)));
    assert_eq!(crop_rect(&e.mode).3, CropState::Window(1));
    e.update(Message::MouseMoved(pt(150, 120)));
    let (tl, br, _, state) = crop_rect(&e.mode);
    assert_eq!((tl, br, state), (pt(0, 0), pt(200, 150), CropState::FullScreen));
}

#[test]
fn full_screen_follows_the_rotated_picture() {
    let mut e = editor();
    e.update(Message::RotateImage);
    assert_eq!((e.picture.width, e.picture.height), (150, 200));
    e.update(Message::MouseMoved(pt(120, 180)));
    let (tl, br, size, state) = crop_rect(&e.mode);
    assert_eq!((tl, br, state), (pt(0, 0), pt(150, 200), CropState::FullScreen));
    assert_eq!(size, Size { width: 150, height: 200 });
}

#[test]
fn click_without_moving_selects_the_window() {
    let mut e = editor();
    e.update(Message::MouseMoved(pt(150, 120)));
    e.update(Message::MousePressed);
    assert_eq!(crop_rect(&e.mode).3, CropState::InProgress { start: pt(150, 120), end: pt(150, 120) });
    e.update(Message::MouseReleased);
    assert_eq!(crop_rect(&e.mode).3, CropState::FullScreen);
    e.update(Message::MouseMoved(pt(12, 12)));
    e.update(Message::MousePressed);
    e.update(Message::MouseReleased);
    assert_eq!(crop_rect(&e.mode).3, CropState::Window(0));
}

#[test]
fn window_messages_become_commands() {
    let mut e = editor();
    assert_eq!(e.update(Message::Drag).command, Command::DragWindow);
    assert_eq!(e.update(Message::Maximize).command, Command::ToggleMaximize);
    assert_eq!(e.update(Message::Close).command, Command::CloseWindow);
    assert_eq!(e.update(Message::SouthEast).command, Command::DragResize(Direction::SouthEast));
    assert_eq!(e.update(Message::North).command, Command::DragResize(Direction::North));
    assert_eq!(crop_rect(&e.mode).3, CropState::FullScreen);
}

#[test]
fn drawing_a_rectangle_commits_it() {
    let mut e = editor();
    let out = e.update(Message::ChangeTool(Tool::fresh(ToolKind::Rectangle)));
    assert!(!out.clear_cache);
    e.update(Message::MouseMoved(pt(40, 40)));
    e.update(Message::MousePressed);
    e.update(Message::MouseMoved(pt(10, 70)));
    match &e.mode {
        Mode::Draw { element, state } => {
            assert_eq!(*state, DrawState::InProgress { initial_pt: pt(40, 40), final_pt: pt(10, 70) });
            match &element.tool {
                Tool::Rectangle { top_left, bottom_right, size, .. } => {
                    assert_eq!((*top_left, *bottom_right), (pt(10, 40), pt(40, 70)));
                    assert_eq!(*size, Size { width: 30, height: 30 });
                }
                _ => panic!("expected a rectangle"),
            }
        }
        _ => panic!("expected draw mode"),
    }
    let out = e.update(Message::MouseReleased);
    assert!(out.clear_cache);
    assert_eq!(e.shapes.len(), 1);
    match &e.shapes[0].tool {
        Tool::Rectangle { top_left, size, .. } => {
            assert_eq!(*top_left, pt(10, 40));
            assert_eq!(*size, Size { width: 30, height: 30 });
        }
        _ => panic!("expected a rectangle"),
    }
    match &e.mode {
        Mode::Draw { element, state } => {
            assert_eq!(*state, DrawState::Idle);
            assert!(!element.tool.is_valid());
        }
        _ => panic!("expected draw mode"),
    }
}

#[test]
fn a_click_with_a_shape_tool_commits_nothing() {
    let mut e = editor();
    e.update(Message::ChangeTool(Tool::fresh(ToolKind::Line)));
    e.update(Message::MouseMoved(pt(5, 5)));
    e.update(Message::MousePressed);
    let out = e.update(Message::MouseReleased);
    assert!(!out.clear_cache);
    assert!(e.shapes.is_empty());
}

#[test]
fn freehand_collects_every_point() {
    let mut e = editor();
    e.update(Message::ChangeTool(Tool::fresh(ToolKind::FreeHand)));
    e.update(Message::MouseMoved(pt(1, 1)));
    e.update(Message::MousePressed);
    e.update(Message::MouseMoved(pt(2, 3)));
    e.update(Message::MouseMoved(pt(4, 5)));
    e.update(Message::MouseReleased);
    match &e.shapes[0].tool {
        Tool::FreeHand { points } => assert_eq!(points, &vec![pt(1, 1), pt(2, 3), pt(4, 5)]),
        _ => panic!("expected a freehand line"),
    }
}

#[test]
fn circle_radius_is_the_rounded_down_distance() {
    let mut t = Tool::fresh(ToolKind::Circle);
    t.initiate(pt(0, 0));
    t.drag(pt(0, 0), pt(3, 4));
    match &t {
        Tool::Circle { center, radius, .. } => {
            assert_eq!(*center, pt(0, 0));
            assert_eq!(*radius, 5);
        }
        _ => panic!("expected a circle"),
    }
    t.drag(pt(0, 0), pt(-7, 7));
    match &t {
        Tool::Circle { radius, .. } => assert_eq!(*radius, 9),
        _ => panic!("expected a circle"),
    }
}

#[test]
fn arrow_barbs_sit_behind_the_tip() {
    let mut t = Tool::fresh(ToolKind::Arrow);
    t.drag(pt(0, 0), pt(40, 0));
    match &t {
        Tool::Arrow { start, end, right, left } => {
            assert_eq!((*start, *end), (pt(0, 0), pt(40, 0)));
            assert_eq!(*right, pt(30, 10));
            assert_eq!(*left, pt(30, -10));
        }
        _ => panic!("expected an arrow"),
    }
    t.drag(pt(0, 0), pt(-1, 0));
    match &t {
        Tool::Arrow { right, left, .. } => {
            assert_eq!(*right, pt(-1, -1));
            assert_eq!(*left, pt(-1, 0));
        }
        _ => panic!("expected an arrow"),
    }
}

#[test]
fn text_tool_asks_for_text_input() {
    let mut e = editor();
    e.update(Message::ChangeTool(Tool::fresh(ToolKind::Text)));
    e.update(Message::MouseMoved(pt(30, 30)));
    e.update(Message::MousePressed);
    e.update(Message::MouseMoved(pt(60, 60)));
    match &e.mode {
        Mode::Draw { element, .. } => match &element.tool {
            Tool::Text { anchor_point, .. } => assert_eq!(*anchor_point, pt(30, 30)),
            _ => panic!("expected text"),
        },
        _ => panic!("expected draw mode"),
    }
    let out = e.update(Message::MouseReleased);
    assert_eq!(out.command, Command::FocusTextInput);
    match &e.mode {
        Mode::Draw { state, .. } => assert_eq!(*state, DrawState::TextInput),
        _ => panic!("expected draw mode"),
    }
}

#[test]
fn text_is_committed_on_the_next_press() {
    let mut e = editor();
    e.update(Message::ChangeTool(Tool::fresh(ToolKind::Text)));
    e.update(Message::MouseMoved(pt(30, 30)));
    e.update(Message::MousePressed);
    e.update(Message::MouseReleased);
    assert!(e.shapes.is_empty());
    // the typed text lands in the element's tool
    if let Mode::Draw { element, .. } = &mut e.mode {
        if let Tool::Text { text, .. } = &mut element.tool {
            text.push_str("hi");
        }
    }
    e.update(Message::MouseMoved(pt(80, 90)));
    let out = e.update(Message::MousePressed);
    assert!(out.clear_cache);
    assert_eq!(e.shapes.len(), 1);
    match &e.shapes[0].tool {
        Tool::Text { anchor_point, text } => {
            assert_eq!(*anchor_point, pt(30, 30));
            assert_eq!(text, "hi");
        }
        _ => panic!("expected text"),
    }
    match &e.mode {
        Mode::Draw { element, .. } => match &element.tool {
            Tool::Text { anchor_point, text } => {
                assert_eq!(*anchor_point, pt(80, 90));
                assert!(text.is_empty());
            }
            _ => panic!("expected text"),
        },
        _ => panic!("expected draw mode"),
    }
}

#[test]
fn changing_tool_commits_the_shape_at_hand() {
    let mut e = editor();
    e.update(Message::ChangeTool(Tool::fresh(ToolKind::Line)));
    e.update(Message::MousePressed);
    e.update(Message::MouseMoved(pt(9, 9)));
    let out = e.update(Message::ChangeTool(Tool::fresh(ToolKind::Circle)));
    assert!(out.clear_cache);
    assert_eq!(e.shapes.len(), 1);
    match &e.mode {
        Mode::Draw { element, .. } => assert_eq!(element.tool.kind(), ToolKind::Circle),
        _ => panic!("expected draw mode"),
    }
}

#[test]
fn rotating_turns_the_picture_clockwise() {
    let mut e = small_editor();
    e.update(Message::RotateImage);
    assert_eq!((e.picture.width, e.picture.height), (1, 2));
    // the left (red) pixel ends on top
    assert_eq!(e.picture.pixels, vec![255, 0, 0, 255, 0, 255, 0, 128]);
    let mut p = Picture::new(2, 2, (0u8..16).collect()).unwrap();
    p.rotate90();
    assert_eq!(p.pixels, vec![8, 9, 10, 11, 0, 1, 2, 3, 12, 13, 14, 15, 4, 5, 6, 7]);
}

#[test]
fn four_rotations_give_back_the_picture() {
    let original: Vec<u8> = (0u8..24).collect();
    let mut p = Picture::new(3, 2, original.clone()).unwrap();
    for _ in 0..4 {
        p.rotate90();
    }
    assert_eq!((p.width, p.height), (3, 2));
    assert_eq!(p.pixels, original);
}

#[test]
fn picture_needs_four_bytes_per_pixel() {
    assert!(Picture::new(2, 2, vec![0; 15]).is_none());
    assert!(Picture::new(2, 2, vec![0; 17]).is_none());
    assert!(Picture::new(0, 5, vec![]).is_some());
}

#[test]
fn hue_rotation_maps_equal_colours_alike() {
    let mut p = Picture::new(3, 1, vec![10, 200, 30, 255, 90, 90, 90, 7, 10, 200, 30, 0]).unwrap();
    p.hue_rotate(90);
    assert_eq!(p.pixels.len(), 12);
    assert_eq!(&p.pixels[0..3], &p.pixels[8..11]);
    assert_eq!((p.pixels[3], p.pixels[7], p.pixels[11]), (255, 7, 0));
}

#[test]
fn hue_rotation_keeps_size_and_alpha() {
    let mut e = small_editor();
    e.update(Message::Blur(180));
    assert_eq!(e.hue_degrees, 180);
    assert_eq!(e.picture.pixels.len(), 8);
    assert_eq!(e.picture.pixels[3], 255);
    assert_eq!(e.picture.pixels[7], 128);
    // a pure red pixel does not stay pure red under a half turn of hue
    assert_ne!(&e.picture.pixels[0..3], &[255u8, 0, 0][..]);
}
