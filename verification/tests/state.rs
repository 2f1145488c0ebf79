use lib::geometry::Rect;
use lib::screen::runtime::RuntimeState;

/// A 400-pixel viewport at y=60 over 1000 pixels of content.
fn viewport() -> Option<(Rect, i32)> {
    Some((Rect::new(0, 60, 480, 400), 1000))
}

#[test]
fn walking_wraps_at_both_ends_of_the_focus_order() {
    let mut state = RuntimeState::new();
    assert!(state.move_focus(-1, 3));
    assert_eq!(state.focus, 2, "back from the first stop wraps to the last");
    assert!(state.move_focus(1, 3));
    assert_eq!(state.focus, 0, "forward from the last wraps to the first");
    assert!(state.move_focus(-7, 3));
    assert_eq!(state.focus, 2, "a long walk back lands on a stop");
    assert!(!state.move_focus(3, 3), "a whole lap comes back to the same stop");
    assert!(!state.move_focus(1, 0), "with nothing focusable nothing moves");
    assert_eq!(state.focus, 2);
}

#[test]
fn the_first_stop_scrolls_to_the_top_and_the_last_to_the_bottom() {
    let mut state = RuntimeState::new();
    state.scroll = 250;
    state.focus = 0;
    assert!(state.settle_scroll(viewport(), Some(Rect::new(0, 300, 480, 40)), 20));
    assert_eq!(state.scroll, 0, "the first stop shows the very top, title included");

    state.focus = 19;
    assert!(state.settle_scroll(viewport(), Some(Rect::new(0, 300, 480, 40)), 20));
    assert_eq!(state.scroll, 600, "the last stop shows the very end of the content");
}

#[test]
fn a_stop_below_the_viewport_is_scrolled_into_view() {
    let mut state = RuntimeState::new();
    state.focus = 5;
    // Bottom edge at 500, the viewport's at 460: forty pixels short.
    assert!(state.settle_scroll(viewport(), Some(Rect::new(0, 460, 480, 40)), 20));
    assert_eq!(state.scroll, 40);
    // Already in view: nothing moves and nothing asks for a repaint.
    assert!(!state.settle_scroll(viewport(), Some(Rect::new(0, 100, 480, 40)), 20));
    assert_eq!(state.scroll, 40);
    // Above it: scrolled back up by exactly the overhang.
    assert!(state.settle_scroll(viewport(), Some(Rect::new(0, 50, 480, 40)), 20));
    assert_eq!(state.scroll, 30);
}

#[test]
fn scrolling_by_keys_moves_half_a_viewport_and_stays_in_the_content() {
    let mut state = RuntimeState::new();
    assert!(state.scroll_by(1, viewport()));
    assert_eq!(state.scroll, 200, "half of a 400-pixel viewport");
    assert!(state.scroll_by(5, viewport()));
    assert_eq!(state.scroll, 600, "held at the end of the content");
    assert!(!state.scroll_by(1, viewport()), "at the end there is nowhere to go");
    assert!(state.scroll_by(-9, viewport()));
    assert_eq!(state.scroll, 0, "and held at the top");
    assert!(!state.scroll_by(1, Some((Rect::new(0, 60, 480, 400), 300))), "content that fits never scrolls");
    assert!(!state.scroll_by(1, None), "nor does a screen with no scrolling view");
}

#[test]
fn a_capture_parks_the_focus_and_gives_it_back() {
    let mut state = RuntimeState::new();
    state.focus = 4;
    assert!(state.adopt_capture(Some(1), 2));
    assert_eq!(state.focus, 1, "the dialog opens on its preferred option");
    assert_eq!(state.focus_before_capture, Some(4));
    assert!(!state.adopt_capture(Some(0), 2), "a dialog still up is not adopted twice");
    assert_eq!(state.focus, 1);
    assert!(state.adopt_capture(None, 7));
    assert_eq!(state.focus, 4, "the row that opened it has the focus again");
    assert_eq!(state.focus_before_capture, None);

    assert!(state.adopt_capture(Some(9), 3));
    assert_eq!(state.focus, 2, "a preferred option past the end settles on the last");
}
