use vstd::prelude::*;
use crate::screen::{ScreenPoint, SelectionRect};

verus! {

/// Whether a zoom selection is being dragged, and from where.
#[derive(Clone, Copy, Debug, PartialEq, Eq, Structural)]
pub enum DragState {
    Idle,
    Dragging { anchor: ScreenPoint },
}

/// What the windowing layer observed during one frame.
#[derive(Clone, Copy, Debug, PartialEq, Eq, Structural)]
pub struct FrameInput {
    /// The reset action was triggered this frame.
    pub reset_pressed: bool,
    /// The selection button is held down.
    pub select_down: bool,
    /// The selection button was let go this frame.
    pub select_released: bool,
    /// Where the pointer is.
    pub cursor: ScreenPoint,
    /// Size of the output surface, in pixels.
    pub width: u32,
    pub height: u32,
}

/// What the windowing layer is to do at the end of one frame, in this order:
/// restore the default viewport if `reset`, then zoom into `zoom` if present,
/// then render again if `recalculate`, and outline `outline` if present.
#[derive(Clone, Copy, Debug, PartialEq, Eq, Structural)]
pub struct FrameAction {
    pub reset: bool,
    pub zoom: Option<SelectionRect>,
    pub recalculate: bool,
    pub outline: Option<SelectionRect>,
}

pub open spec fn has_pixels(input: FrameInput) -> bool {
    input.width > 0 && input.height > 0
}

pub open spec fn rect_between(anchor: ScreenPoint, cursor: ScreenPoint) -> SelectionRect {
    SelectionRect { top_left: anchor, bottom_right: cursor }
}

/// A press starts a drag at the pointer; a release ends it.
pub open spec fn next_drag_state(s: DragState, input: FrameInput) -> DragState {
    match s {
        DragState::Idle => if input.select_down {
            DragState::Dragging { anchor: input.cursor }
        } else {
            DragState::Idle
        },
        DragState::Dragging { anchor } => if input.select_released {
            DragState::Idle
        } else {
            s
        },
    }
}

/// The selection that a frame commits: one whose drag ends in this frame,
/// that spans an area, on an output surface that has pixels.
pub open spec fn committed_selection(s: DragState, input: FrameInput) -> Option<SelectionRect> {
    match s {
        DragState::Dragging { anchor } => if input.select_released && rect_between(
            anchor,
            input.cursor,
        ).spans_area() && has_pixels(input) {
            Some(rect_between(anchor, input.cursor))
        } else {
            None
        },
        DragState::Idle => None,
    }
}

/// The rectangle to outline: from the anchor to the pointer, while dragging.
pub open spec fn live_outline(s: DragState, input: FrameInput) -> Option<SelectionRect> {
    match next_drag_state(s, input) {
        DragState::Dragging { anchor } => Some(rect_between(anchor, input.cursor)),
        DragState::Idle => None,
    }
}

pub open spec fn frame_action(s: DragState, input: FrameInput) -> FrameAction {
    FrameAction {
        reset: input.reset_pressed,
        zoom: committed_selection(s, input),
        recalculate: has_pixels(input) && (input.reset_pressed || committed_selection(
            s,
            input,
        ) is Some),
        outline: live_outline(s, input),
    }
}

impl DragState {
    /// Takes one frame's input, moves to the next state and says what to do.
    pub fn step(&mut self, input: &FrameInput) -> (action: FrameAction)
        ensures
            *final(self) == next_drag_state(*old(self), *input),
            action == frame_action(*old(self), *input),
    {
        let nonempty = input.width > 0 && input.height > 0;
        let mut zoom: Option<SelectionRect> = None;
        match *self {
            DragState::Idle => {
                if input.select_down {
                    *self = DragState::Dragging { anchor: input.cursor };
                }
            },
            DragState::Dragging { anchor } => {
                if input.select_released {
                    *self = DragState::Idle;
                    let rect = SelectionRect { top_left: anchor, bottom_right: input.cursor };
                    if rect.has_area() && nonempty {
                        zoom = Some(rect);
                    }
                }
            },
        }
        let outline = match *self {
            DragState::Dragging { anchor } => Some(
                SelectionRect { top_left: anchor, bottom_right: input.cursor },
            ),
            DragState::Idle => None,
        };
        let recalculate = nonempty && (input.reset_pressed || zoom.is_some());
        FrameAction { reset: input.reset_pressed, zoom, recalculate, outline }
    }
}

/// A selection that spans no area (its end is its start, or it was dragged
/// up or left) never zooms: without a reset in the same frame, the viewport
/// stays as it was.
pub proof fn lemma_arealess_selection_keeps_view(anchor: ScreenPoint, input: FrameInput)
    requires
        !rect_between(anchor, input.cursor).spans_area(),
    ensures
        frame_action(DragState::Dragging { anchor }, input).zoom is None,
        !input.reset_pressed ==> !frame_action(DragState::Dragging { anchor }, input).reset,
{
}

/// Every zoom that a frame commits spans an area, on a surface with pixels,
/// so the viewport derived from it keeps a positive width and height.
pub proof fn lemma_zoom_spans_area(s: DragState, input: FrameInput)
    ensures
        frame_action(s, input).zoom matches Some(r) ==> r.spans_area() && has_pixels(input)
            && frame_action(s, input).recalculate,
{
}

/// A reset is carried out from every state, whatever was dragged before.
pub proof fn lemma_reset_from_any_state(s: DragState, input: FrameInput)
    requires
        input.reset_pressed,
    ensures
        frame_action(s, input).reset,
        has_pixels(input) ==> frame_action(s, input).recalculate,
{
}

} // verus!
