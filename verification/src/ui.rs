use vstd::prelude::*;

use crate::editor::{Message, MessageView};
use crate::geometry::Point;
use crate::mode::{Mode, ModeView};
use crate::tool::{toolbar_kinds, ToolKind};

verus! {

/// A mouse button.
#[derive(Clone, Copy, PartialEq, Eq, Structural, Debug)]
pub enum MouseButton {
    Left,
    Right,
    Middle,
    Back,
    Forward,
    Other,
}

/// The events the canvas reacts to; everything else is `Other`.
#[derive(Clone, Copy, PartialEq, Eq, Structural, Debug)]
pub enum CanvasEvent {
    CursorMoved,
    ButtonPressed(MouseButton),
    ButtonReleased(MouseButton),
    Other,
}

/// The message a canvas event publishes, if any: a cursor move reports
/// the cursor's position within the canvas (the origin when it is
/// outside), and the left button's press and release are reported.
pub open spec fn canvas_message_of(event: CanvasEvent, cursor_in_canvas: Option<Point>) -> Option<MessageView> {
    match event {
        CanvasEvent::CursorMoved => Some(
            MessageView::MouseMoved(
                match cursor_in_canvas {
                    Some(p) => p,
                    None => Point { x: 0, y: 0 },
                },
            ),
        ),
        CanvasEvent::ButtonPressed(MouseButton::Left) => Some(MessageView::MousePressed),
        CanvasEvent::ButtonReleased(MouseButton::Left) => Some(MessageView::MouseReleased),
        _ => None,
    }
}

/// Turns a canvas event into the message it publishes.
pub fn canvas_message(event: CanvasEvent, cursor_in_canvas: Option<Point>) -> (r: Option<Message>)
    ensures
        match r {
            Some(m) => canvas_message_of(event, cursor_in_canvas) == Some(m@),
            None => canvas_message_of(event, cursor_in_canvas) is None,
        },
{
    match event {
        CanvasEvent::CursorMoved => Some(
            Message::MouseMoved(
                match cursor_in_canvas {
                    Some(p) => p,
                    None => Point::origin(),
                },
            ),
        ),
        CanvasEvent::ButtonPressed(MouseButton::Left) => Some(Message::MousePressed),
        CanvasEvent::ButtonReleased(MouseButton::Left) => Some(Message::MouseReleased),
        _ => None,
    }
}

/// The colour of a toolbar icon.
#[derive(Clone, Copy, PartialEq, Eq, Structural, Debug)]
pub enum IconTint {
    /// The tool in use.
    Highlight,
    /// Any other tool.
    Plain,
}

pub open spec fn tint_of(selected: bool) -> IconTint {
    if selected {
        IconTint::Highlight
    } else {
        IconTint::Plain
    }
}

/// The tint of a toolbar icon.
pub fn toolbar_tint(selected: bool) -> (t: IconTint)
    ensures
        t == tint_of(selected),
{
    if selected {
        IconTint::Highlight
    } else {
        IconTint::Plain
    }
}

/// A tool is the one in use when the canvas is drawing with a tool of
/// its kind.
pub open spec fn in_use(mode: ModeView, kind: ToolKind) -> bool {
    match mode {
        ModeView::Draw { element, .. } => element.tool.kind() == kind,
        _ => false,
    }
}

/// The tint of each toolbar icon, in toolbar order.
pub fn toolbar_tints(mode: &Mode) -> (r: Vec<IconTint>)
    ensures
        r.len() == 6,
        forall|i: int| 0 <= i < 6 ==> #[trigger] r@[i] == tint_of(in_use(mode@, toolbar_kinds()[i])),
{
    let current: Option<ToolKind> = match mode {
        Mode::Draw { element, .. } => Some(element.tool.kind()),
        _ => None,
    };
    let kinds = [ToolKind::Rectangle, ToolKind::Circle, ToolKind::FreeHand, ToolKind::Line, ToolKind::Arrow, ToolKind::Text];
    assert(kinds@ =~= toolbar_kinds());
    let mut r: Vec<IconTint> = Vec::new();
    let mut i: usize = 0;
    while i < 6
        invariant
            i <= 6,
            kinds@ == toolbar_kinds(),
            r.len() == i,
            current == (match mode@ {
                ModeView::Draw { element, .. } => Some(element.tool.kind()),
                _ => None,
            }),
            forall|j: int| 0 <= j < i ==> #[trigger] r@[j] == tint_of(in_use(mode@, toolbar_kinds()[j])),
        decreases 6 - i,
    {
        let selected = match current {
            Some(k) => k == kinds[i],
            None => false,
        };
        r.push(toolbar_tint(selected));
        i = i + 1;
    }
    r
}

/// What an action button is doing.
#[derive(Clone, Copy, PartialEq, Eq, Structural, Debug)]
pub enum ButtonStatus {
    Active,
    Hovered,
    Pressed,
    Disabled,
}

/// The background of an action button.
#[derive(Clone, Copy, PartialEq, Eq, Structural, Debug)]
pub enum Backdrop {
    Transparent,
    /// The strongest background colour of the theme.
    Strongest,
    Black,
}

/// The text colour of an action button: the theme's strong secondary
/// text colour, or its inverse.
#[derive(Clone, Copy, PartialEq, Eq, Structural, Debug)]
pub enum TextTone {
    Strong,
    InverseStrong,
}

/// The look of an action button; its border is always rounded by 4.
#[derive(Clone, Copy, PartialEq, Eq, Structural, Debug)]
pub struct ButtonLook {
    pub backdrop: Backdrop,
    pub text: TextTone,
}

pub open spec fn look_of(status: ButtonStatus) -> ButtonLook {
    match status {
        ButtonStatus::Active => ButtonLook { backdrop: Backdrop::Transparent, text: TextTone::InverseStrong },
        ButtonStatus::Hovered => ButtonLook { backdrop: Backdrop::Strongest, text: TextTone::InverseStrong },
        ButtonStatus::Pressed => ButtonLook { backdrop: Backdrop::Transparent, text: TextTone::Strong },
        ButtonStatus::Disabled => ButtonLook { backdrop: Backdrop::Black, text: TextTone::Strong },
    }
}

/// The look of an action button in each status.
pub fn action_look(status: ButtonStatus) -> (l: ButtonLook)
    ensures
        l == look_of(status),
{
    match status {
        ButtonStatus::Active => ButtonLook { backdrop: Backdrop::Transparent, text: TextTone::InverseStrong },
        ButtonStatus::Hovered => ButtonLook { backdrop: Backdrop::Strongest, text: TextTone::InverseStrong },
        ButtonStatus::Pressed => ButtonLook { backdrop: Backdrop::Transparent, text: TextTone::Strong },
        ButtonStatus::Disabled => ButtonLook { backdrop: Backdrop::Black, text: TextTone::Strong },
    }
}

} // verus!
