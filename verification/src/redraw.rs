//! When the window is drawn: for a number of frames after each handled
//! event, then not until the next one.

use vstd::prelude::*;

verus! {

/// The number of frames drawn after a handled event.
pub const REFRESH_FLAG_COUNT: i32 = 100;

/// What the display loop does for a frame.
#[derive(Debug, Clone, Copy)]
pub enum FrameAction {
    /// Draw the window.
    Display,
    /// Sleep for the idle time.
    Sleep,
}

/// The action for the next frame, with the count of frames left to draw
/// afterwards: a frame is drawn while some are left, and the loop sleeps
/// otherwise.
pub fn next_frame(refresh_flag_count: i32) -> (r: (FrameAction, i32))
    ensures
        refresh_flag_count > 0 ==> r.0 is Display && r.1 == refresh_flag_count - 1,
        refresh_flag_count <= 0 ==> r.0 is Sleep && r.1 == refresh_flag_count,
{
    if refresh_flag_count > 0 {
        (FrameAction::Display, refresh_flag_count - 1)
    } else {
        (FrameAction::Sleep, refresh_flag_count)
    }
}

/// The count of frames left to draw after an event: the full count where
/// the event was handled, the count unchanged otherwise.
pub fn after_event(refresh_flag_count: i32, handled: bool) -> (r: i32)
    ensures
        r == if handled { REFRESH_FLAG_COUNT } else { refresh_flag_count },
{
    if handled {
        REFRESH_FLAG_COUNT
    } else {
        refresh_flag_count
    }
}

} // verus!
