use vstd::prelude::*;

use crate::geometry::{span, spanned, Point, Size};
use crate::mode::{select_window, window_selection, CropState, DrawState, Mode, ModeView, WindowRect};
use crate::picture::{corner_of, hue_rotated_by, hue_rotation_outcome, lemma_quarter_turn_exists, lemma_quarter_turn_unique, pixels_fit, quarter_turned, Picture, PictureView};
use crate::tool::{default_color, DrawElement, DrawElementView, Tool, ToolKind, ToolView};

verus! {

/// An edge or corner of the window, for resizing by dragging it.
#[derive(Clone, Copy, PartialEq, Eq, Structural, Debug)]
pub enum Direction {
    NorthWest,
    North,
    NorthEast,
    West,
    East,
    South,
    SouthWest,
    SouthEast,
}

/// What the window around the editor is asked to do after a message.
#[derive(Clone, Copy, PartialEq, Eq, Structural, Debug)]
pub enum Command {
    Nothing,
    DragWindow,
    ToggleMaximize,
    DragResize(Direction),
    CloseWindow,
    FocusTextInput,
}

/// The answer to a message: the window command, and whether the cached
/// drawing of the committed shapes is stale.
#[derive(Clone, Copy, PartialEq, Eq, Structural, Debug)]
pub struct Outcome {
    pub command: Command,
    pub clear_cache: bool,
}

/// The messages the editor handles.
#[derive(Debug)]
pub enum Message {
    Drag,
    Maximize,
    NorthWest,
    North,
    NorthEast,
    West,
    East,
    South,
    SouthWest,
    SouthEast,
    Close,
    RotateImage,
    Blur(i32),
    MousePressed,
    MouseMoved(Point),
    MouseReleased,
    ChangeTool(Tool),
}

pub enum MessageView {
    Drag,
    Maximize,
    NorthWest,
    North,
    NorthEast,
    West,
    East,
    South,
    SouthWest,
    SouthEast,
    Close,
    RotateImage,
    Blur(i32),
    MousePressed,
    MouseMoved(Point),
    MouseReleased,
    ChangeTool(ToolView),
}

impl View for Message {
    type V = MessageView;

    open spec fn view(&self) -> MessageView {
        match self {
            Message::Drag => MessageView::Drag,
            Message::Maximize => MessageView::Maximize,
            Message::NorthWest => MessageView::NorthWest,
            Message::North => MessageView::North,
            Message::NorthEast => MessageView::NorthEast,
            Message::West => MessageView::West,
            Message::East => MessageView::East,
            Message::South => MessageView::South,
            Message::SouthWest => MessageView::SouthWest,
            Message::SouthEast => MessageView::SouthEast,
            Message::Close => MessageView::Close,
            Message::RotateImage => MessageView::RotateImage,
            Message::Blur(g) => MessageView::Blur(*g),
            Message::MousePressed => MessageView::MousePressed,
            Message::MouseMoved(p) => MessageView::MouseMoved(*p),
            Message::MouseReleased => MessageView::MouseReleased,
            Message::ChangeTool(t) => MessageView::ChangeTool(t@),
        }
    }
}

/// The picture, the canvas and everything drawn on it.
#[derive(Debug)]
pub struct Editor {
    pub mode: Mode,
    pub cursor_position: Point,
    /// The committed shapes, oldest first.
    pub shapes: Vec<DrawElement>,
    /// The captured windows, topmost first.
    pub windows: Vec<WindowRect>,
    pub picture: Picture,
    /// The hue rotation last asked for, in degrees.
    pub hue_degrees: i32,
}

pub struct EditorView {
    pub mode: ModeView,
    pub cursor_position: Point,
    pub shapes: Seq<DrawElementView>,
    pub windows: Seq<WindowRect>,
    pub picture: PictureView,
    pub hue_degrees: i32,
}

impl View for Editor {
    type V = EditorView;

    open spec fn view(&self) -> EditorView {
        EditorView {
            mode: self.mode@,
            cursor_position: self.cursor_position,
            shapes: self.shapes@.map_values(|e: DrawElement| e@),
            windows: self.windows@,
            picture: self.picture@,
            hue_degrees: self.hue_degrees,
        }
    }
}

pub open spec fn quiet() -> Outcome {
    Outcome { command: Command::Nothing, clear_cache: false }
}

/// A crop selection agrees with the state it is in.
pub open spec fn crop_consistent(
    top_left: Point,
    bottom_right: Point,
    size: Size,
    state: CropState,
    windows: Seq<WindowRect>,
) -> bool {
    &&& top_left.x <= bottom_right.x
    &&& top_left.y <= bottom_right.y
    &&& size == spanned(top_left, bottom_right).2
    &&& match state {
        CropState::FullScreen => top_left == (Point { x: 0, y: 0 }),
        CropState::Window(i) => i < windows.len() && top_left == windows[i as int].top_left
            && bottom_right == windows[i as int].bottom_right,
        CropState::InProgress { start, end } => (top_left, bottom_right, size) == spanned(start, end),
        CropState::Area => true,
    }
}

/// The picture turned a quarter turn clockwise.
pub open spec fn quarter_turn(p: PictureView) -> PictureView {
    PictureView {
        width: p.height,
        height: p.width,
        pixels: choose|out: Seq<u8>| quarter_turned(p.width as int, p.height as int, p.pixels, out),
    }
}

/// A committed shape: a shape worth keeping is appended to `shapes`
/// and the tool starts over; any other leaves both as they are.
pub open spec fn committed(shapes: Seq<DrawElementView>, e: DrawElementView) -> (Seq<DrawElementView>, DrawElementView, bool) {
    if e.tool.is_valid() {
        (shapes.push(e), DrawElementView { tool: e.tool.reset(), ..e }, true)
    } else {
        (shapes, e, false)
    }
}

impl EditorView {
    pub open spec fn wf(self) -> bool {
        &&& self.picture.wf()
        &&& forall|i: int| 0 <= i < self.windows.len() ==> (#[trigger] self.windows[i]).wf()
        &&& self.windows.len() <= usize::MAX
        &&& match self.mode {
            ModeView::Crop { top_left, bottom_right, size, state } => crop_consistent(
                top_left,
                bottom_right,
                size,
                state,
                self.windows,
            ),
            ModeView::Draw { .. } => true,
        }
    }

    pub open spec fn with_mode(self, mode: ModeView) -> EditorView {
        EditorView { mode, ..self }
    }

    /// The mouse button goes down at the cursor.
    pub open spec fn press(self) -> (EditorView, Outcome) {
        let c = self.cursor_position;
        match self.mode {
            ModeView::Crop { .. } => (
                self.with_mode(
                    ModeView::Crop {
                        top_left: c,
                        bottom_right: c,
                        size: Size { width: 0, height: 0 },
                        state: CropState::InProgress { start: c, end: c },
                    },
                ),
                quiet(),
            ),
            ModeView::Draw { element, .. } => {
                let r = if element.tool.kind() == ToolKind::Text {
                    committed(self.shapes, element)
                } else {
                    (self.shapes, element, false)
                };
                let e = DrawElementView { tool: r.1.tool.initiate(c), ..r.1 };
                (
                    EditorView {
                        shapes: r.0,
                        mode: ModeView::Draw { element: e, state: DrawState::InProgress { initial_pt: c, final_pt: c } },
                        ..self
                    },
                    Outcome { command: Command::Nothing, clear_cache: r.2 },
                )
            },
        }
    }

    /// The mouse moves to `p`.
    pub open spec fn moved(self, p: Point) -> (EditorView, Outcome) {
        let s = EditorView { cursor_position: p, ..self };
        let next = match self.mode {
            ModeView::Crop { top_left, bottom_right, size, state } => match state {
                CropState::FullScreen => s.with_mode(window_selection(self.windows, p, corner_of(self.picture))),
                CropState::Window(_) => s.with_mode(window_selection(self.windows, p, corner_of(self.picture))),
                CropState::InProgress { start, .. } => s.with_mode(
                    ModeView::Crop {
                        top_left: spanned(start, p).0,
                        bottom_right: spanned(start, p).1,
                        size: spanned(start, p).2,
                        state: CropState::InProgress { start, end: p },
                    },
                ),
                CropState::Area => s,
            },
            ModeView::Draw { element, state } => if element.tool.kind() == ToolKind::Text {
                s
            } else {
                match state {
                    DrawState::InProgress { initial_pt, .. } => s.with_mode(
                        ModeView::Draw {
                            element: DrawElementView { tool: element.tool.drag(initial_pt, p), ..element },
                            state: DrawState::InProgress { initial_pt, final_pt: p },
                        },
                    ),
                    _ => s,
                }
            },
        };
        (next, quiet())
    }

    /// The mouse button comes up.
    pub open spec fn release(self) -> (EditorView, Outcome) {
        match self.mode {
            ModeView::Crop { top_left, bottom_right, size, state } => match state {
                CropState::InProgress { start, end } => if start != end {
                    (self.with_mode(ModeView::Crop { top_left, bottom_right, size, state: CropState::Area }), quiet())
                } else {
                    (self.with_mode(window_selection(self.windows, self.cursor_position, corner_of(self.picture))), quiet())
                },
                _ => (self, quiet()),
            },
            ModeView::Draw { element, state } => if element.tool.kind() == ToolKind::Text {
                (
                    self.with_mode(ModeView::Draw { element, state: DrawState::TextInput }),
                    Outcome { command: Command::FocusTextInput, clear_cache: false },
                )
            } else {
                let r = committed(self.shapes, element);
                (
                    EditorView { shapes: r.0, mode: ModeView::Draw { element: r.1, state: DrawState::Idle }, ..self },
                    Outcome { command: Command::Nothing, clear_cache: r.2 },
                )
            },
        }
    }

    /// Another tool is picked: the shape at hand is committed, then the
    /// element takes the new tool (entering drawing if need be).
    pub open spec fn change_tool(self, t: ToolView) -> (EditorView, Outcome) {
        match self.mode {
            ModeView::Draw { element, state } => {
                let r = committed(self.shapes, element);
                (
                    EditorView {
                        shapes: r.0,
                        mode: ModeView::Draw { element: DrawElementView { tool: t, ..r.1 }, state },
                        ..self
                    },
                    Outcome { command: Command::Nothing, clear_cache: r.2 },
                )
            },
            ModeView::Crop { .. } => (
                self.with_mode(
                    ModeView::Draw {
                        element: DrawElementView { tool: t, color: default_color(), size: 1 },
                        state: DrawState::Idle,
                    },
                ),
                quiet(),
            ),
        }
    }

    /// The editor after a message, and its answer. After `Blur` the picture's
    /// bytes are a hue rotation of the old ones, which this does not fix and
    /// leaves as they were; `steps_to` says what holds of them.
    pub open spec fn step(self, m: MessageView) -> (EditorView, Outcome) {
        let window = |c: Command| (self, Outcome { command: c, clear_cache: false });
        match m {
            MessageView::Drag => window(Command::DragWindow),
            MessageView::Maximize => window(Command::ToggleMaximize),
            MessageView::NorthWest => window(Command::DragResize(Direction::NorthWest)),
            MessageView::North => window(Command::DragResize(Direction::North)),
            MessageView::NorthEast => window(Command::DragResize(Direction::NorthEast)),
            MessageView::West => window(Command::DragResize(Direction::West)),
            MessageView::East => window(Command::DragResize(Direction::East)),
            MessageView::South => window(Command::DragResize(Direction::South)),
            MessageView::SouthWest => window(Command::DragResize(Direction::SouthWest)),
            MessageView::SouthEast => window(Command::DragResize(Direction::SouthEast)),
            MessageView::Close => window(Command::CloseWindow),
            MessageView::RotateImage => (EditorView { picture: quarter_turn(self.picture), ..self }, quiet()),
            MessageView::Blur(g) => (EditorView { hue_degrees: g, ..self }, quiet()),
            MessageView::MousePressed => self.press(),
            MessageView::MouseMoved(p) => self.moved(p),
            MessageView::MouseReleased => self.release(),
            MessageView::ChangeTool(t) => self.change_tool(t),
        }
    }

    /// The editor may become `next` and answer `out` after `m`: as `step`
    /// says, except that after `Blur` the picture's bytes are a hue rotation
    /// of the old ones by the message's angle.
    pub open spec fn steps_to(self, m: MessageView, next: EditorView, out: Outcome) -> bool {
        match m {
            MessageView::Blur(_) => {
                &&& (EditorView { picture: PictureView { pixels: self.picture.pixels, ..next.picture }, ..next }, out)
                    == self.step(m)
                &&& hue_rotated_by(self.picture.pixels, m->Blur_0, next.picture.pixels)
                &&& hue_rotation_outcome(self.picture.pixels, next.picture.pixels)
            },
            _ => (next, out) == self.step(m),
        }
    }
}

/// A placeholder mode, held while the real one is taken apart: an empty
/// finished crop at the origin.
fn blank_mode() -> (m: Mode)
    ensures
        m@ == (ModeView::Crop {
            top_left: Point { x: 0, y: 0 },
            bottom_right: Point { x: 0, y: 0 },
            size: Size { width: 0, height: 0 },
            state: CropState::Area,
        }),
{
    Mode::Crop { top_left: Point::origin(), bottom_right: Point::origin(), size: Size::zero(), state: CropState::Area }
}

/// Commits `element` into `shapes` when it is worth keeping.
fn commit(shapes: &mut Vec<DrawElement>, element: &mut DrawElement) -> (cleared: bool)
    ensures
        (final(shapes)@.map_values(|e: DrawElement| e@), final(element)@, cleared) == committed(
            old(shapes)@.map_values(|e: DrawElement| e@),
            old(element)@,
        ),
{
    if element.tool.is_valid() {
        let copy = element.duplicate();
        shapes.push(copy);
        element.tool.reset();
        assert(shapes@.map_values(|e: DrawElement| e@) =~= old(shapes)@.map_values(|e: DrawElement| e@).push(old(element)@));
        true
    } else {
        false
    }
}

impl Editor {
    /// An editor for `picture`, with the given captured windows: the whole
    /// picture is selected for cropping, nothing is drawn yet.
    pub fn new(picture: Picture, windows: Vec<WindowRect>) -> (e: Editor)
        requires
            picture.wf(),
            forall|i: int| 0 <= i < windows@.len() ==> (#[trigger] windows@[i]).wf(),
        ensures
            e@.wf(),
            e@.mode == (ModeView::Crop {
                top_left: Point { x: 0, y: 0 },
                bottom_right: corner_of(picture@),
                size: spanned(Point { x: 0, y: 0 }, corner_of(picture@)).2,
                state: CropState::FullScreen,
            }),
            e@.cursor_position == (Point { x: 0, y: 0 }),
            e@.shapes.len() == 0,
            e@.windows == windows@,
            e@.picture == picture@,
            e@.hue_degrees == 0,
    {
        let screen = picture.corner();
        let (top_left, bottom_right, size) = span(Point::origin(), screen);
        let e = Editor {
            mode: Mode::Crop { top_left, bottom_right, size, state: CropState::FullScreen },
            cursor_position: Point::origin(),
            shapes: Vec::new(),
            windows,
            picture,
            hue_degrees: 0,
        };
        assert(e@.shapes =~= Seq::<DrawElementView>::empty());
        assert(e.windows@.len() == e.windows.len());
        assert forall|i: int| 0 <= i < e@.windows.len() implies (#[trigger] e@.windows[i]).wf() by {
            assert(e@.windows[i] == e.windows@[i]);
        }
        e
    }

    fn on_press(&mut self) -> (r: Outcome)
        ensures
            (final(self)@, r) == old(self)@.press(),
    {
        let c = self.cursor_position;
        let mut mode = blank_mode();
        std::mem::swap(&mut mode, &mut self.mode);
        match mode {
            Mode::Crop { .. } => {
                self.mode = Mode::Crop {
                    top_left: c,
                    bottom_right: c,
                    size: Size::zero(),
                    state: CropState::InProgress { start: c, end: c },
                };
                Outcome { command: Command::Nothing, clear_cache: false }
            },
            Mode::Draw { mut element, .. } => {
                let mut cleared = false;
                if element.tool.is_text_tool() {
                    cleared = commit(&mut self.shapes, &mut element);
                }
                element.tool.initiate(c);
                self.mode = Mode::Draw { element, state: DrawState::InProgress { initial_pt: c, final_pt: c } };
                Outcome { command: Command::Nothing, clear_cache: cleared }
            },
        }
    }

    fn on_move(&mut self, p: Point) -> (r: Outcome)
        ensures
            (final(self)@, r) == old(self)@.moved(p),
    {
        self.cursor_position = p;
        let mut mode = blank_mode();
        std::mem::swap(&mut mode, &mut self.mode);
        match mode {
            Mode::Crop { top_left, bottom_right, size, state } => match state {
                CropState::FullScreen | CropState::Window(_) => {
                    self.mode = select_window(&self.windows, p, self.picture.corner());
                },
                CropState::InProgress { start, .. } => {
                    let (tl, br, sz) = span(start, p);
                    self.mode = Mode::Crop { top_left: tl, bottom_right: br, size: sz, state: CropState::InProgress { start, end: p } };
                },
                CropState::Area => {
                    self.mode = Mode::Crop { top_left, bottom_right, size, state };
                },
            },
            Mode::Draw { mut element, state } => {
                if !element.tool.is_text_tool() {
                    match state {
                        DrawState::InProgress { initial_pt, .. } => {
                            element.tool.drag(initial_pt, p);
                            self.mode = Mode::Draw { element, state: DrawState::InProgress { initial_pt, final_pt: p } };
                        },
                        _ => {
                            self.mode = Mode::Draw { element, state };
                        },
                    }
                } else {
                    self.mode = Mode::Draw { element, state };
                }
            },
        }
        Outcome { command: Command::Nothing, clear_cache: false }
    }

    fn on_release(&mut self) -> (r: Outcome)
        ensures
            (final(self)@, r) == old(self)@.release(),
    {
        let mut mode = blank_mode();
        std::mem::swap(&mut mode, &mut self.mode);
        match mode {
            Mode::Crop { top_left, bottom_right, size, state } => {
                match state {
                    CropState::InProgress { start, end } => {
                        if start != end {
                            self.mode = Mode::Crop { top_left, bottom_right, size, state: CropState::Area };
                        } else {
                            self.mode = select_window(&self.windows, self.cursor_position, self.picture.corner());
                        }
                    },
                    _ => {
                        self.mode = Mode::Crop { top_left, bottom_right, size, state };
                    },
                }
                Outcome { command: Command::Nothing, clear_cache: false }
            },
            Mode::Draw { mut element, state } => {
                if element.tool.is_text_tool() {
                    self.mode = Mode::Draw { element, state: DrawState::TextInput };
                    Outcome { command: Command::FocusTextInput, clear_cache: false }
                } else {
                    let cleared = commit(&mut self.shapes, &mut element);
                    self.mode = Mode::Draw { element, state: DrawState::Idle };
                    Outcome { command: Command::Nothing, clear_cache: cleared }
                }
            },
        }
    }

    fn on_change_tool(&mut self, tool: Tool) -> (r: Outcome)
        ensures
            (final(self)@, r) == old(self)@.change_tool(tool@),
    {
        let mut mode = blank_mode();
        std::mem::swap(&mut mode, &mut self.mode);
        match mode {
            Mode::Draw { mut element, state } => {
                let cleared = commit(&mut self.shapes, &mut element);
                element.tool = tool;
                self.mode = Mode::Draw { element, state };
                Outcome { command: Command::Nothing, clear_cache: cleared }
            },
            Mode::Crop { .. } => {
                self.mode = Mode::Draw { element: DrawElement::new(tool), state: DrawState::Idle };
                Outcome { command: Command::Nothing, clear_cache: false }
            },
        }
    }

    /// Turns the picture a quarter turn clockwise.
    pub fn rotate_img(&mut self)
        requires
            old(self)@.wf(),
        ensures
            final(self)@ == (EditorView { picture: quarter_turn(old(self)@.picture), ..old(self)@ }),
    {
        let ghost before = self.picture@;
        self.picture.rotate90();
        proof {
            let w = before.width as int;
            let h = before.height as int;
            let c = choose|out: Seq<u8>| quarter_turned(w, h, before.pixels, out);
            assert(quarter_turned(w, h, before.pixels, self.picture.pixels@));
            lemma_quarter_turn_unique(w, h, before.pixels, self.picture.pixels@, c);
            assert(self.picture@ == quarter_turn(before));
        }
    }

    /// Rotates the hue of the picture by `degrees`, and keeps the value.
    pub fn blur_img(&mut self, degrees: i32)
        requires
            old(self)@.wf(),
        ensures
            final(self)@ == (EditorView {
                hue_degrees: degrees,
                picture: PictureView { pixels: final(self)@.picture.pixels, ..old(self)@.picture },
                ..old(self)@
            }),
            hue_rotated_by(old(self)@.picture.pixels, degrees, final(self)@.picture.pixels),
            hue_rotation_outcome(old(self)@.picture.pixels, final(self)@.picture.pixels),
    {
        self.hue_degrees = degrees;
        self.picture.hue_rotate(degrees);
    }

    /// Handles one message: the editor becomes what `steps_to` says, and the
    /// answer tells the window what to do.
    pub fn update(&mut self, message: Message) -> (r: Outcome)
        requires
            old(self)@.wf(),
        ensures
            old(self)@.steps_to(message@, final(self)@, r),
            final(self)@.wf(),
    {
        let ghost m = message@;
        let ghost before = self@;
        let r = match message {
            Message::Drag => Outcome { command: Command::DragWindow, clear_cache: false },
            Message::Maximize => Outcome { command: Command::ToggleMaximize, clear_cache: false },
            Message::NorthWest => Outcome { command: Command::DragResize(Direction::NorthWest), clear_cache: false },
            Message::North => Outcome { command: Command::DragResize(Direction::North), clear_cache: false },
            Message::NorthEast => Outcome { command: Command::DragResize(Direction::NorthEast), clear_cache: false },
            Message::West => Outcome { command: Command::DragResize(Direction::West), clear_cache: false },
            Message::East => Outcome { command: Command::DragResize(Direction::East), clear_cache: false },
            Message::South => Outcome { command: Command::DragResize(Direction::South), clear_cache: false },
            Message::SouthWest => Outcome { command: Command::DragResize(Direction::SouthWest), clear_cache: false },
            Message::SouthEast => Outcome { command: Command::DragResize(Direction::SouthEast), clear_cache: false },
            Message::Close => Outcome { command: Command::CloseWindow, clear_cache: false },
            Message::RotateImage => {
                self.rotate_img();
                Outcome { command: Command::Nothing, clear_cache: false }
            },
            Message::Blur(g) => {
                self.blur_img(g);
                Outcome { command: Command::Nothing, clear_cache: false }
            },
            Message::MousePressed => self.on_press(),
            Message::MouseMoved(p) => self.on_move(p),
            Message::MouseReleased => self.on_release(),
            Message::ChangeTool(t) => self.on_change_tool(t),
        };
        proof {
            lemma_step_keeps_wf(before, m, self@, r);
        }
        r
    }
}

/// The selection of the window under the cursor, or of the screen, is a
/// consistent crop selection.
pub proof fn lemma_window_selection_consistent(windows: Seq<WindowRect>, p: Point, screen: Point)
    requires
        forall|i: int| 0 <= i < windows.len() ==> (#[trigger] windows[i]).wf(),
        windows.len() <= usize::MAX,
        screen.x >= 0,
        screen.y >= 0,
    ensures
        window_selection(windows, p, screen) matches ModeView::Crop { top_left, bottom_right, size, state }
            && crop_consistent(top_left, bottom_right, size, state, windows),
{
    if exists|i: int| crate::mode::is_first_window_at(windows, p, i) {
        let i = choose|i: int| crate::mode::is_first_window_at(windows, p, i);
        assert(windows[i].wf());
        assert((i as usize) as int == i);
    }
}

/// Every message keeps the editor well formed: the picture keeps four
/// bytes per pixel, and a crop selection stays normalised and agrees with
/// the drag, window or screen it was taken from.
pub proof fn lemma_step_keeps_wf(s: EditorView, m: MessageView, next: EditorView, out: Outcome)
    requires
        s.wf(),
        s.steps_to(m, next, out),
    ensures
        next.wf(),
{
    match m {
        MessageView::RotateImage => {
            let w = s.picture.width as int;
            let h = s.picture.height as int;
            lemma_quarter_turn_exists(w, h, s.picture.pixels);
            let out = choose|out: Seq<u8>| quarter_turned(w, h, s.picture.pixels, out);
            assert(4 * w * h == 4 * h * w) by (nonlinear_arith);
            assert(pixels_fit(h, w, out));
            assert(s.step(m).0.wf());
        },
        MessageView::MousePressed => {
            assert(s.step(m).0.wf());
        },
        MessageView::MouseMoved(p) => {
            lemma_window_selection_consistent(s.windows, p, corner_of(s.picture));
            assert(s.step(m).0.wf());
        },
        MessageView::MouseReleased => {
            lemma_window_selection_consistent(s.windows, s.cursor_position, corner_of(s.picture));
            assert(s.step(m).0.wf());
        },
        MessageView::ChangeTool(t) => {
            assert(s.step(m).0.wf());
        },
        MessageView::Blur(g) => {
            assert(next.picture.pixels.len() == s.picture.pixels.len());
        },
        _ => {
            assert(s.step(m).0.wf());
        },
    }
}

} // verus!
