use mandelbrot::interaction::{DragState, FrameAction, FrameInput};
use mandelbrot::screen::{ScreenPoint, SelectionRect};

fn pt(x: i32, y: i32) -> ScreenPoint {
    ScreenPoint { x, y }
}

fn input(down: bool, released: bool, cursor: ScreenPoint) -> FrameInput {
    FrameInput {
        reset_pressed: false,
        select_down: down,
        select_released: released,
        cursor,
        width: 800,
        height: 600,
    }
}

#[test]
fn idle_frame_does_nothing() {
    let mut s = DragState::Idle;
    let a = s.step(&input(false, false, pt(5, 5)));
    assert_eq!(s, DragState::Idle);
    assert_eq!(a, FrameAction { reset: false, zoom: None, recalculate: false, outline: None });
}

#[test]
fn press_starts_drag_and_outlines() {
    let mut s = DragState::Idle;
    let a = s.step(&input(true, false, pt(10, 20)));
    assert_eq!(s, DragState::Dragging { anchor: pt(10, 20) });
    assert_eq!(a.outline, Some(SelectionRect { top_left: pt(10, 20), bottom_right: pt(10, 20) }));
    assert!(!a.recalculate);
    let a = s.step(&input(true, false, pt(30, 40)));
    assert_eq!(s, DragState::Dragging { anchor: pt(10, 20) });
    assert_eq!(a.outline, Some(SelectionRect { top_left: pt(10, 20), bottom_right: pt(30, 40) }));
}

#[test]
fn release_commits_selection() {
    let mut s = DragState::Dragging { anchor: pt(10, 20) };
    let a = s.step(&input(false, true, pt(110, 70)));
    assert_eq!(s, DragState::Idle);
    let rect = SelectionRect { top_left: pt(10, 20), bottom_right: pt(110, 70) };
    assert_eq!(a, FrameAction { reset: false, zoom: Some(rect), recalculate: true, outline: None });
    assert!(rect.has_area());
}

#[test]
fn zero_area_selection_is_ignored() {
    let mut s = DragState::Dragging { anchor: pt(50, 50) };
    let a = s.step(&input(false, true, pt(50, 50)));
    assert_eq!(s, DragState::Idle);
    assert_eq!(a, FrameAction { reset: false, zoom: None, recalculate: false, outline: None });
}

#[test]
fn flat_or_reversed_selection_is_ignored() {
    for end in [pt(90, 50), pt(50, 90), pt(10, 90), pt(90, 10)] {
        let mut s = DragState::Dragging { anchor: pt(50, 50) };
        let a = s.step(&input(false, true, end));
        assert_eq!(a.zoom, None);
        assert!(!a.recalculate);
        assert!(!SelectionRect { top_left: pt(50, 50), bottom_right: end }.has_area());
    }
}

#[test]
fn reset_works_from_any_state() {
    for start in [DragState::Idle, DragState::Dragging { anchor: pt(1, 1) }] {
        let mut s = start;
        let mut i = input(false, false, pt(3, 3));
        i.reset_pressed = true;
        let a = s.step(&i);
        assert!(a.reset);
        assert!(a.recalculate);
        assert_eq!(a.zoom, None);
    }
}

#[test]
fn reset_and_release_in_one_frame() {
    let mut s = DragState::Dragging { anchor: pt(0, 0) };
    let mut i = input(false, true, pt(4, 4));
    i.reset_pressed = true;
    let a = s.step(&i);
    assert!(a.reset);
    assert_eq!(a.zoom, Some(SelectionRect { top_left: pt(0, 0), bottom_right: pt(4, 4) }));
    assert!(a.recalculate);
}

#[test]
fn empty_surface_skips_recalculation() {
    let mut s = DragState::Dragging { anchor: pt(0, 0) };
    let mut i = input(false, true, pt(4, 4));
    i.width = 0;
    i.reset_pressed = true;
    let a = s.step(&i);
    assert!(a.reset);
    assert_eq!(a.zoom, None);
    assert!(!a.recalculate);
    assert_eq!(s, DragState::Idle);
}
