use wiev::keys::{command_for, IMAGE_HOP, IMAGE_HOP_FAST};
use wiev::{Command, Event, Index, Key, KeyPress};

fn press(code: Key, alt: bool, ctrl: bool, shift: bool) -> Event {
    Event::KeyPressed(KeyPress { code, alt, ctrl, shift, system: false })
}

#[test]
fn window_events() {
    assert!(matches!(command_for(Event::Closed), Some(Command::Close)));
    assert!(matches!(command_for(Event::Resized), Some(Command::Redraw)));
    assert!(command_for(Event::Other).is_none());
    assert!(matches!(command_for(press(Key::Escape, false, false, false)), Some(Command::Close)));
}

#[test]
fn image_keys() {
    assert!(matches!(command_for(press(Key::PageDown, false, false, false)),
        Some(Command::ChangeImageIndex(Index::Offset(1)))));
    assert!(matches!(command_for(press(Key::PageUp, false, true, false)),
        Some(Command::ChangeImageIndex(Index::Offset(n))) if n == -IMAGE_HOP));
    assert!(matches!(command_for(press(Key::PageDown, false, false, true)),
        Some(Command::ChangeImageIndex(Index::Offset(n))) if n == IMAGE_HOP_FAST));
    assert!(matches!(command_for(press(Key::PageDown, false, true, true)),
        Some(Command::ChangeImageIndex(Index::Position(-1)))));
    assert!(matches!(command_for(press(Key::PageDown, true, false, false)),
        Some(Command::ChangeImageIndex(Index::Random))));
    assert!(command_for(press(Key::PageUp, true, false, false)).is_none());
}

#[test]
fn bookmark_and_history_keys() {
    assert!(matches!(command_for(press(Key::Home, false, true, true)),
        Some(Command::ChangeBookmarkIndex(Index::Position(0)))));
    assert!(matches!(command_for(press(Key::End, true, false, false)),
        Some(Command::ChangeBookmarkIndex(Index::Random))));
    assert!(matches!(command_for(press(Key::Insert, false, false, false)),
        Some(Command::ChangeHistoryIndex(Index::Offset(-1)))));
    assert!(matches!(command_for(press(Key::BackSpace, false, false, false)), Some(Command::AddBookmark)));
    assert!(matches!(command_for(press(Key::BackSpace, false, true, false)), Some(Command::RemoveBookmark)));
}

#[test]
fn view_keys() {
    assert!(matches!(command_for(press(Key::Up, false, false, false)),
        Some(Command::Move { dx: 0, dy: -1, fast: true })));
    assert!(matches!(command_for(press(Key::Right, false, false, true)),
        Some(Command::Move { dx: 1, dy: 0, fast: false })));
    assert!(matches!(command_for(press(Key::Down, false, true, false)),
        Some(Command::Zoom { zoom_in: false, fast: true })));
    assert!(matches!(command_for(press(Key::Left, false, true, true)),
        Some(Command::Rotate { clockwise: false, fast: false })));
    assert!(matches!(command_for(press(Key::Numpad2, false, false, false)),
        Some(Command::ResampleImage { current_scale: true, current_rotation: false })));
    assert!(matches!(command_for(press(Key::Dash, false, false, true)), Some(Command::VFlip)));
    assert!(matches!(command_for(press(Key::Space, false, true, true)), Some(Command::ResetFlip)));
    assert!(matches!(command_for(press(Key::C, false, true, false)), Some(Command::ClearTextureCache)));
    assert!(command_for(press(Key::Other, false, false, false)).is_none());
    assert!(command_for(Event::KeyPressed(KeyPress {
        code: Key::T, alt: false, ctrl: false, shift: false, system: true,
    })).is_none());
}
