use wiev::redraw::{after_event, next_frame, FrameAction, REFRESH_FLAG_COUNT};

#[test]
fn frames_are_drawn_while_counted_then_the_loop_sleeps() {
    assert!(matches!(next_frame(2), (FrameAction::Display, 1)));
    assert!(matches!(next_frame(1), (FrameAction::Display, 0)));
    assert!(matches!(next_frame(0), (FrameAction::Sleep, 0)));
}

#[test]
fn a_handled_event_restarts_the_count() {
    assert_eq!(after_event(0, true), REFRESH_FLAG_COUNT);
    assert_eq!(after_event(7, false), 7);
    assert_eq!(REFRESH_FLAG_COUNT, 100);
}
