use vstd::prelude::*;

use crate::geometry::{span, spanned, within, Point, Size};
use crate::tool::{DrawElement, DrawElementView};

verus! {

/// Where a crop selection stands.
#[derive(Clone, Copy, PartialEq, Eq, Structural, Debug)]
pub enum CropState {
    /// The whole screen is selected.
    FullScreen,
    /// The captured window with this index is selected.
    Window(usize),
    /// A selection is being dragged from `start` to `end`.
    InProgress { start: Point, end: Point },
    /// A dragged selection is done.
    Area,
}

/// Where the drawing of a shape stands.
#[derive(Clone, Copy, PartialEq, Eq, Structural, Debug)]
pub enum DrawState {
    Idle,
    InProgress { initial_pt: Point, final_pt: Point },
    TextInput,
}

/// A captured window, by its corners.
#[derive(Clone, Copy, PartialEq, Eq, Structural, Debug)]
pub struct WindowRect {
    pub top_left: Point,
    pub bottom_right: Point,
}

impl WindowRect {
    pub open spec fn wf(self) -> bool {
        self.top_left.x <= self.bottom_right.x && self.top_left.y <= self.bottom_right.y
    }

    /// The window covers `p`, edges included.
    pub open spec fn holds(self, p: Point) -> bool {
        within(p, self.top_left, self.bottom_right)
    }

    pub fn contains(&self, p: Point) -> (b: bool)
        ensures
            b == self.holds(p),
    {
        self.top_left.x <= p.x && p.x <= self.bottom_right.x && self.top_left.y <= p.y && p.y
            <= self.bottom_right.y
    }
}

/// What the canvas is doing: selecting an area to crop, or drawing.
#[derive(Debug)]
#[allow(inconsistent_fields)]
pub enum Mode {
    Crop { top_left: Point, bottom_right: Point, size: Size, state: CropState },
    Draw { element: DrawElement, state: DrawState },
}

#[allow(inconsistent_fields)]
pub enum ModeView {
    Crop { top_left: Point, bottom_right: Point, size: Size, state: CropState },
    Draw { element: DrawElementView, state: DrawState },
}

impl View for Mode {
    type V = ModeView;

    open spec fn view(&self) -> ModeView {
        match self {
            Mode::Crop { top_left, bottom_right, size, state } => ModeView::Crop {
                top_left: *top_left,
                bottom_right: *bottom_right,
                size: *size,
                state: *state,
            },
            Mode::Draw { element, state } => ModeView::Draw { element: element@, state: *state },
        }
    }
}

impl ModeView {
    /// The shape being drawn is shown while a drag or a text entry is under way.
    pub open spec fn allows_drawing(self) -> bool {
        match self {
            ModeView::Draw { state, .. } => !(state is Idle),
            _ => false,
        }
    }
}

impl Mode {
    pub fn allows_drawing(&self) -> (b: bool)
        ensures
            b == self@.allows_drawing(),
    {
        match self {
            Mode::Draw { state, .. } => match state {
                DrawState::Idle => false,
                _ => true,
            },
            _ => false,
        }
    }
}

/// `i` is the first window of `windows` that covers `p`.
pub open spec fn is_first_window_at(windows: Seq<WindowRect>, p: Point, i: int) -> bool {
    &&& 0 <= i < windows.len()
    &&& windows[i].holds(p)
    &&& forall|j: int| 0 <= j < i ==> !(#[trigger] windows[j]).holds(p)
}

/// The crop selection for the cursor at `p`: the first captured window
/// under it, or else the whole screen, whose bottom-right corner is
/// `screen` (the editor passes the corner of its picture as it is now).
pub open spec fn window_selection(windows: Seq<WindowRect>, p: Point, screen: Point) -> ModeView {
    if exists|i: int| is_first_window_at(windows, p, i) {
        let i = choose|i: int| is_first_window_at(windows, p, i);
        ModeView::Crop {
            top_left: windows[i].top_left,
            bottom_right: windows[i].bottom_right,
            size: spanned(windows[i].top_left, windows[i].bottom_right).2,
            state: CropState::Window(i as usize),
        }
    } else {
        ModeView::Crop {
            top_left: Point { x: 0, y: 0 },
            bottom_right: screen,
            size: spanned(Point { x: 0, y: 0 }, screen).2,
            state: CropState::FullScreen,
        }
    }
}

proof fn lemma_first_window_unique(windows: Seq<WindowRect>, p: Point, i: int, j: int)
    requires
        is_first_window_at(windows, p, i),
        is_first_window_at(windows, p, j),
    ensures
        i == j,
{
    if i < j {
        assert(!windows[i].holds(p));
    } else if j < i {
        assert(!windows[j].holds(p));
    }
}

/// Selects the captured window under the cursor, or the whole screen.
pub fn select_window(windows: &Vec<WindowRect>, p: Point, screen: Point) -> (m: Mode)
    ensures
        m@ == window_selection(windows@, p, screen),
{
    let mut i: usize = 0;
    while i < windows.len()
        invariant
            i <= windows@.len(),
            forall|j: int| 0 <= j < i ==> !(#[trigger] windows@[j]).holds(p),
        decreases windows.len() - i,
    {
        if windows[i].contains(p) {
            let w = windows[i];
            let (_, _, size) = span(w.top_left, w.bottom_right);
            proof {
                assert(is_first_window_at(windows@, p, i as int));
                let c = choose|c: int| is_first_window_at(windows@, p, c);
                lemma_first_window_unique(windows@, p, i as int, c);
            }
            return Mode::Crop { top_left: w.top_left, bottom_right: w.bottom_right, size, state: CropState::Window(i) };
        }
        i = i + 1;
    }
    let origin = Point::origin();
    let (_, _, size) = span(origin, screen);
    Mode::Crop { top_left: origin, bottom_right: screen, size, state: CropState::FullScreen }
}

} // verus!
