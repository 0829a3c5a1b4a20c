//! The key bindings: which command a window event asks for.

use vstd::prelude::*;

use crate::index::Index;

verus! {

/// The number of images a hop skips.
pub const IMAGE_HOP: isize = 10;

/// The number of images a fast hop skips.
pub const IMAGE_HOP_FAST: isize = 100;

/// The keys that are bound, and `Other` for the rest.
#[derive(Debug, Clone, Copy)]
pub enum Key {
    Escape,
    PageUp,
    PageDown,
    Home,
    End,
    Insert,
    Delete,
    BackSpace,
    Numpad0,
    Numpad1,
    Numpad2,
    Numpad3,
    S,
    T,
    C,
    Return,
    Space,
    Up,
    Down,
    Left,
    Right,
    Dash,
    Other,
}

/// A key press with the modifier keys held.
#[derive(Debug, Clone, Copy)]
pub struct KeyPress {
    pub code: Key,
    pub alt: bool,
    pub ctrl: bool,
    pub shift: bool,
    pub system: bool,
}

/// A window event.
#[derive(Debug, Clone, Copy)]
pub enum Event {
    /// The window was asked to close.
    Closed,
    KeyPressed(KeyPress),
    /// The window was resized.
    Resized,
    Other,
}

/// What an event asks the viewer to do.
#[derive(Debug, Clone, Copy)]
pub enum Command {
    Close,
    ChangeImageIndex(Index),
    ChangeBookmarkIndex(Index),
    ChangeHistoryIndex(Index),
    AddBookmark,
    RemoveBookmark,
    /// Resample the image at the current zoom (or at its own scale), and at
    /// the current rotation (or at none).
    ResampleImage { current_scale: bool, current_rotation: bool },
    ToggleTextureSmooth,
    ToggleTextureMipmap,
    ToggleTextVisible,
    ToggleCursorVisible,
    ClearTextureCache,
    Default,
    FitMinDim,
    FitMaxDim,
    ResetZoom,
    ResetRotation,
    Center,
    ResetFlip,
    /// Move the view one step along `dx` and `dy`, each -1, 0 or 1; a fast
    /// step is the longer one.
    Move { dx: i8, dy: i8, fast: bool },
    /// Zoom in or out by the fine step or by the fast, coarser one.
    Zoom { zoom_in: bool, fast: bool },
    /// Rotate the view by the fine step or by the fast, coarser one.
    Rotate { clockwise: bool, fast: bool },
    HFlip,
    VFlip,
    /// Draw again, with nothing else changed.
    Redraw,
}

/// The command bound to key `code` pressed with the modifiers `alt`, `ctrl`,
/// `shift` and `system`.
pub open spec fn spec_key_command(code: Key, alt: bool, ctrl: bool, shift: bool, system: bool) -> Option<Command> {
    match (code, alt, ctrl, shift, system) {
        (Key::Escape, false, false, false, false) => Some(Command::Close),
        (Key::PageUp, false, false, false, false) => Some(Command::ChangeImageIndex(Index::Offset(-1isize))),
        (Key::PageDown, false, false, false, false) => Some(Command::ChangeImageIndex(Index::Offset(1))),
        (Key::PageUp, false, true, false, false) => Some(Command::ChangeImageIndex(Index::Offset((-IMAGE_HOP) as isize))),
        (Key::PageDown, false, true, false, false) => Some(Command::ChangeImageIndex(Index::Offset(IMAGE_HOP))),
        (Key::PageUp, false, false, true, false) => Some(Command::ChangeImageIndex(Index::Offset((-IMAGE_HOP_FAST) as isize))),
        (Key::PageDown, false, false, true, false) => Some(Command::ChangeImageIndex(Index::Offset(IMAGE_HOP_FAST))),
        (Key::PageUp, false, true, true, false) => Some(Command::ChangeImageIndex(Index::Position(0))),
        (Key::PageDown, false, true, true, false) => Some(Command::ChangeImageIndex(Index::Position(-1isize))),
        (Key::PageDown, true, false, false, false) => Some(Command::ChangeImageIndex(Index::Random)),
        (Key::Home, false, false, false, false) => Some(Command::ChangeBookmarkIndex(Index::Offset(-1isize))),
        (Key::End, false, false, false, false) => Some(Command::ChangeBookmarkIndex(Index::Offset(1))),
        (Key::Home, false, true, false, false) => Some(Command::ChangeBookmarkIndex(Index::Offset((-IMAGE_HOP) as isize))),
        (Key::End, false, true, false, false) => Some(Command::ChangeBookmarkIndex(Index::Offset(IMAGE_HOP))),
        (Key::Home, false, false, true, false) => Some(Command::ChangeBookmarkIndex(Index::Offset((-IMAGE_HOP_FAST) as isize))),
        (Key::End, false, false, true, false) => Some(Command::ChangeBookmarkIndex(Index::Offset(IMAGE_HOP_FAST))),
        (Key::Home, false, true, true, false) => Some(Command::ChangeBookmarkIndex(Index::Position(0))),
        (Key::End, false, true, true, false) => Some(Command::ChangeBookmarkIndex(Index::Position(-1isize))),
        (Key::End, true, false, false, false) => Some(Command::ChangeBookmarkIndex(Index::Random)),
        (Key::Insert, false, false, false, false) => Some(Command::ChangeHistoryIndex(Index::Offset(-1isize))),
        (Key::Delete, false, false, false, false) => Some(Command::ChangeHistoryIndex(Index::Offset(1))),
        (Key::Insert, false, true, false, false) => Some(Command::ChangeHistoryIndex(Index::Offset((-IMAGE_HOP) as isize))),
        (Key::Delete, false, true, false, false) => Some(Command::ChangeHistoryIndex(Index::Offset(IMAGE_HOP))),
        (Key::Insert, false, false, true, false) => Some(Command::ChangeHistoryIndex(Index::Offset((-IMAGE_HOP_FAST) as isize))),
        (Key::Delete, false, false, true, false) => Some(Command::ChangeHistoryIndex(Index::Offset(IMAGE_HOP_FAST))),
        (Key::Insert, false, true, true, false) => Some(Command::ChangeHistoryIndex(Index::Position(0))),
        (Key::Delete, false, true, true, false) => Some(Command::ChangeHistoryIndex(Index::Position(-1isize))),
        (Key::Delete, true, false, false, false) => Some(Command::ChangeHistoryIndex(Index::Random)),
        (Key::BackSpace, false, false, false, false) => Some(Command::AddBookmark),
        (Key::BackSpace, false, true, false, false) => Some(Command::RemoveBookmark),
        (Key::Numpad0, false, false, false, false) => Some(Command::ResampleImage { current_scale: false, current_rotation: false }),
        (Key::Numpad1, false, false, false, false) => Some(Command::ResampleImage { current_scale: true, current_rotation: true }),
        (Key::Numpad2, false, false, false, false) => Some(Command::ResampleImage { current_scale: true, current_rotation: false }),
        (Key::Numpad3, false, false, false, false) => Some(Command::ResampleImage { current_scale: false, current_rotation: true }),
        (Key::S, false, false, false, false) => Some(Command::ToggleTextureSmooth),
        (Key::S, false, true, false, false) => Some(Command::ToggleTextureMipmap),
        (Key::T, false, false, false, false) => Some(Command::ToggleTextVisible),
        (Key::C, false, false, false, false) => Some(Command::ToggleCursorVisible),
        (Key::C, false, true, false, false) => Some(Command::ClearTextureCache),
        (Key::Return, false, false, false, false) => Some(Command::Default),
        (Key::Return, false, true, false, false) => Some(Command::FitMinDim),
        (Key::Return, false, false, true, false) => Some(Command::FitMaxDim),
        (Key::Space, false, false, false, false) => Some(Command::ResetZoom),
        (Key::Space, false, true, false, false) => Some(Command::ResetRotation),
        (Key::Space, false, false, true, false) => Some(Command::Center),
        (Key::Space, false, true, true, false) => Some(Command::ResetFlip),
        (Key::Up, false, false, false, false) => Some(Command::Move { dx: 0, dy: -1i8, fast: true }),
        (Key::Down, false, false, false, false) => Some(Command::Move { dx: 0, dy: 1, fast: true }),
        (Key::Left, false, false, false, false) => Some(Command::Move { dx: -1i8, dy: 0, fast: true }),
        (Key::Right, false, false, false, false) => Some(Command::Move { dx: 1, dy: 0, fast: true }),
        (Key::Up, false, false, true, false) => Some(Command::Move { dx: 0, dy: -1i8, fast: false }),
        (Key::Down, false, false, true, false) => Some(Command::Move { dx: 0, dy: 1, fast: false }),
        (Key::Left, false, false, true, false) => Some(Command::Move { dx: -1i8, dy: 0, fast: false }),
        (Key::Right, false, false, true, false) => Some(Command::Move { dx: 1, dy: 0, fast: false }),
        (Key::Up, false, true, false, false) => Some(Command::Zoom { zoom_in: true, fast: true }),
        (Key::Down, false, true, false, false) => Some(Command::Zoom { zoom_in: false, fast: true }),
        (Key::Up, false, true, true, false) => Some(Command::Zoom { zoom_in: true, fast: false }),
        (Key::Down, false, true, true, false) => Some(Command::Zoom { zoom_in: false, fast: false }),
        (Key::Left, false, true, false, false) => Some(Command::Rotate { clockwise: false, fast: true }),
        (Key::Right, false, true, false, false) => Some(Command::Rotate { clockwise: true, fast: true }),
        (Key::Left, false, true, true, false) => Some(Command::Rotate { clockwise: false, fast: false }),
        (Key::Right, false, true, true, false) => Some(Command::Rotate { clockwise: true, fast: false }),
        (Key::Dash, false, false, false, false) => Some(Command::HFlip),
        (Key::Dash, false, false, true, false) => Some(Command::VFlip),
        _ => None,
    }
}

/// The command that `event` asks for: the one bound to a key press, closing
/// for a close request, a redraw for a resize, and none otherwise.
pub open spec fn spec_command_for(event: Event) -> Option<Command> {
    match event {
        Event::Closed => Some(Command::Close),
        Event::KeyPressed(k) => spec_key_command(k.code, k.alt, k.ctrl, k.shift, k.system),
        Event::Resized => Some(Command::Redraw),
        Event::Other => None,
    }
}

/// The command that `event` asks for, if any.
pub fn command_for(event: Event) -> (r: Option<Command>)
    ensures
        r == spec_command_for(event),
{
    match event {
        Event::Closed => Some(Command::Close),
        Event::KeyPressed(k) => match (k.code, k.alt, k.ctrl, k.shift, k.system) {
            (Key::Escape, false, false, false, false) => Some(Command::Close),
            (Key::PageUp, false, false, false, false) => Some(Command::ChangeImageIndex(Index::Offset(-1isize))),
            (Key::PageDown, false, false, false, false) => Some(Command::ChangeImageIndex(Index::Offset(1))),
            (Key::PageUp, false, true, false, false) => Some(Command::ChangeImageIndex(Index::Offset((-IMAGE_HOP) as isize))),
            (Key::PageDown, false, true, false, false) => Some(Command::ChangeImageIndex(Index::Offset(IMAGE_HOP))),
            (Key::PageUp, false, false, true, false) => Some(Command::ChangeImageIndex(Index::Offset((-IMAGE_HOP_FAST) as isize))),
            (Key::PageDown, false, false, true, false) => Some(Command::ChangeImageIndex(Index::Offset(IMAGE_HOP_FAST))),
            (Key::PageUp, false, true, true, false) => Some(Command::ChangeImageIndex(Index::Position(0))),
            (Key::PageDown, false, true, true, false) => Some(Command::ChangeImageIndex(Index::Position(-1isize))),
            (Key::PageDown, true, false, false, false) => Some(Command::ChangeImageIndex(Index::Random)),
            (Key::Home, false, false, false, false) => Some(Command::ChangeBookmarkIndex(Index::Offset(-1isize))),
            (Key::End, false, false, false, false) => Some(Command::ChangeBookmarkIndex(Index::Offset(1))),
            (Key::Home, false, true, false, false) => Some(Command::ChangeBookmarkIndex(Index::Offset((-IMAGE_HOP) as isize))),
            (Key::End, false, true, false, false) => Some(Command::ChangeBookmarkIndex(Index::Offset(IMAGE_HOP))),
            (Key::Home, false, false, true, false) => Some(Command::ChangeBookmarkIndex(Index::Offset((-IMAGE_HOP_FAST) as isize))),
            (Key::End, false, false, true, false) => Some(Command::ChangeBookmarkIndex(Index::Offset(IMAGE_HOP_FAST))),
            (Key::Home, false, true, true, false) => Some(Command::ChangeBookmarkIndex(Index::Position(0))),
            (Key::End, false, true, true, false) => Some(Command::ChangeBookmarkIndex(Index::Position(-1isize))),
            (Key::End, true, false, false, false) => Some(Command::ChangeBookmarkIndex(Index::Random)),
            (Key::Insert, false, false, false, false) => Some(Command::ChangeHistoryIndex(Index::Offset(-1isize))),
            (Key::Delete, false, false, false, false) => Some(Command::ChangeHistoryIndex(Index::Offset(1))),
            (Key::Insert, false, true, false, false) => Some(Command::ChangeHistoryIndex(Index::Offset((-IMAGE_HOP) as isize))),
            (Key::Delete, false, true, false, false) => Some(Command::ChangeHistoryIndex(Index::Offset(IMAGE_HOP))),
            (Key::Insert, false, false, true, false) => Some(Command::ChangeHistoryIndex(Index::Offset((-IMAGE_HOP_FAST) as isize))),
            (Key::Delete, false, false, true, false) => Some(Command::ChangeHistoryIndex(Index::Offset(IMAGE_HOP_FAST))),
            (Key::Insert, false, true, true, false) => Some(Command::ChangeHistoryIndex(Index::Position(0))),
            (Key::Delete, false, true, true, false) => Some(Command::ChangeHistoryIndex(Index::Position(-1isize))),
            (Key::Delete, true, false, false, false) => Some(Command::ChangeHistoryIndex(Index::Random)),
            (Key::BackSpace, false, false, false, false) => Some(Command::AddBookmark),
            (Key::BackSpace, false, true, false, false) => Some(Command::RemoveBookmark),
            (Key::Numpad0, false, false, false, false) => Some(Command::ResampleImage { current_scale: false, current_rotation: false }),
            (Key::Numpad1, false, false, false, false) => Some(Command::ResampleImage { current_scale: true, current_rotation: true }),
            (Key::Numpad2, false, false, false, false) => Some(Command::ResampleImage { current_scale: true, current_rotation: false }),
            (Key::Numpad3, false, false, false, false) => Some(Command::ResampleImage { current_scale: false, current_rotation: true }),
            (Key::S, false, false, false, false) => Some(Command::ToggleTextureSmooth),
            (Key::S, false, true, false, false) => Some(Command::ToggleTextureMipmap),
            (Key::T, false, false, false, false) => Some(Command::ToggleTextVisible),
            (Key::C, false, false, false, false) => Some(Command::ToggleCursorVisible),
            (Key::C, false, true, false, false) => Some(Command::ClearTextureCache),
            (Key::Return, false, false, false, false) => Some(Command::Default),
            (Key::Return, false, true, false, false) => Some(Command::FitMinDim),
            (Key::Return, false, false, true, false) => Some(Command::FitMaxDim),
            (Key::Space, false, false, false, false) => Some(Command::ResetZoom),
            (Key::Space, false, true, false, false) => Some(Command::ResetRotation),
            (Key::Space, false, false, true, false) => Some(Command::Center),
            (Key::Space, false, true, true, false) => Some(Command::ResetFlip),
            (Key::Up, false, false, false, false) => Some(Command::Move { dx: 0, dy: -1i8, fast: true }),
            (Key::Down, false, false, false, false) => Some(Command::Move { dx: 0, dy: 1, fast: true }),
            (Key::Left, false, false, false, false) => Some(Command::Move { dx: -1i8, dy: 0, fast: true }),
            (Key::Right, false, false, false, false) => Some(Command::Move { dx: 1, dy: 0, fast: true }),
            (Key::Up, false, false, true, false) => Some(Command::Move { dx: 0, dy: -1i8, fast: false }),
            (Key::Down, false, false, true, false) => Some(Command::Move { dx: 0, dy: 1, fast: false }),
            (Key::Left, false, false, true, false) => Some(Command::Move { dx: -1i8, dy: 0, fast: false }),
            (Key::Right, false, false, true, false) => Some(Command::Move { dx: 1, dy: 0, fast: false }),
            (Key::Up, false, true, false, false) => Some(Command::Zoom { zoom_in: true, fast: true }),
            (Key::Down, false, true, false, false) => Some(Command::Zoom { zoom_in: false, fast: true }),
            (Key::Up, false, true, true, false) => Some(Command::Zoom { zoom_in: true, fast: false }),
            (Key::Down, false, true, true, false) => Some(Command::Zoom { zoom_in: false, fast: false }),
            (Key::Left, false, true, false, false) => Some(Command::Rotate { clockwise: false, fast: true }),
            (Key::Right, false, true, false, false) => Some(Command::Rotate { clockwise: true, fast: true }),
            (Key::Left, false, true, true, false) => Some(Command::Rotate { clockwise: false, fast: false }),
            (Key::Right, false, true, true, false) => Some(Command::Rotate { clockwise: true, fast: false }),
            (Key::Dash, false, false, false, false) => Some(Command::HFlip),
            (Key::Dash, false, false, true, false) => Some(Command::VFlip),
            _ => None,
        },
        Event::Resized => Some(Command::Redraw),
        Event::Other => None,
    }
}

/// The index of a move that `c` asks for through the images (`list` 0),
/// the bookmarks (`list` 1) or the history (`list` 2).
pub open spec fn spec_move_of(c: Option<Command>, list: int) -> Option<Index> {
    match c {
        Some(Command::ChangeImageIndex(i)) => if list == 0 { Some(i) } else { None },
        Some(Command::ChangeBookmarkIndex(i)) => if list == 1 { Some(i) } else { None },
        Some(Command::ChangeHistoryIndex(i)) => if list == 2 { Some(i) } else { None },
        _ => None,
    }
}

/// `back` and `forward` are opposite moves: offsets of the same size, the
/// backward one negative, or the first and the last entry.
pub open spec fn spec_opposite_moves(back: Option<Index>, forward: Option<Index>) -> bool {
    match (back, forward) {
        (Some(Index::Offset(b)), Some(Index::Offset(f))) => b < 0 && b == -f,
        (Some(Index::Position(b)), Some(Index::Position(f))) => b == 0 && f == -1,
        _ => false,
    }
}

/// The keys that move through a list come in pairs, PageUp and PageDown for
/// the images, Home and End for the bookmarks, Insert and Delete for the
/// history: with any modifiers but alt and system, the first moves back by
/// the offset the second moves forward by, or to the first entry where the
/// second moves to the last; with alt, the second moves at random and the
/// first is not bound.
pub proof fn law_move_keys_are_paired(alt: bool, ctrl: bool, shift: bool, system: bool)
    ensures
        !alt && !system ==> spec_opposite_moves(
            spec_move_of(spec_key_command(Key::PageUp, alt, ctrl, shift, system), 0),
            spec_move_of(spec_key_command(Key::PageDown, alt, ctrl, shift, system), 0),
        ),
        !alt && !system ==> spec_opposite_moves(
            spec_move_of(spec_key_command(Key::Home, alt, ctrl, shift, system), 1),
            spec_move_of(spec_key_command(Key::End, alt, ctrl, shift, system), 1),
        ),
        !alt && !system ==> spec_opposite_moves(
            spec_move_of(spec_key_command(Key::Insert, alt, ctrl, shift, system), 2),
            spec_move_of(spec_key_command(Key::Delete, alt, ctrl, shift, system), 2),
        ),
        alt && !ctrl && !shift && !system ==> {
            &&& spec_move_of(spec_key_command(Key::PageDown, alt, ctrl, shift, system), 0) == Some(Index::Random)
            &&& spec_move_of(spec_key_command(Key::End, alt, ctrl, shift, system), 1) == Some(Index::Random)
            &&& spec_move_of(spec_key_command(Key::Delete, alt, ctrl, shift, system), 2) == Some(Index::Random)
            &&& spec_key_command(Key::PageUp, alt, ctrl, shift, system) is None
            &&& spec_key_command(Key::Home, alt, ctrl, shift, system) is None
            &&& spec_key_command(Key::Insert, alt, ctrl, shift, system) is None
        },
        spec_move_of(spec_key_command(Key::PageDown, false, false, false, false), 0) == Some(Index::Offset(1)),
        spec_move_of(spec_key_command(Key::End, false, false, false, false), 1) == Some(Index::Offset(1)),
        spec_move_of(spec_key_command(Key::Delete, false, false, false, false), 2) == Some(Index::Offset(1)),
{
}

/// `neg` and `pos` are mirrored commands: moves of the view the opposite
/// ways along one axis, `neg` towards the negative end, or zooms out and in,
/// or rotations counterclockwise and clockwise, each pair at the same speed.
pub open spec fn spec_mirrored(neg: Option<Command>, pos: Option<Command>) -> bool {
    match (neg, pos) {
        (Some(Command::Move { dx: a, dy: b, fast: f }), Some(Command::Move { dx: c, dy: d, fast: g })) =>
            f == g && a == -c && b == -d && a + b < 0 && (a == 0 || b == 0),
        (Some(Command::Zoom { zoom_in: a, fast: f }), Some(Command::Zoom { zoom_in: b, fast: g })) =>
            f == g && !a && b,
        (Some(Command::Rotate { clockwise: a, fast: f }), Some(Command::Rotate { clockwise: b, fast: g })) =>
            f == g && !a && b,
        (None, None) => true,
        _ => false,
    }
}

/// The arrow keys are mirrored in pairs, for every combination of
/// modifiers: Left against Right, Up against Down for moves, and Down
/// (out) against Up (in) for zooms.
pub proof fn law_arrow_keys_are_mirrored(alt: bool, ctrl: bool, shift: bool, system: bool)
    ensures
        spec_mirrored(
            spec_key_command(Key::Left, alt, ctrl, shift, system),
            spec_key_command(Key::Right, alt, ctrl, shift, system),
        ),
        !ctrl ==> spec_mirrored(
            spec_key_command(Key::Up, alt, ctrl, shift, system),
            spec_key_command(Key::Down, alt, ctrl, shift, system),
        ),
        ctrl ==> spec_mirrored(
            spec_key_command(Key::Down, alt, ctrl, shift, system),
            spec_key_command(Key::Up, alt, ctrl, shift, system),
        ),
{
}

} // verus!
