//! The plain vocabulary of window-system input: key codes and the events
//! that a frame loop hands to the library each iteration.

use vstd::prelude::*;

verus! {

/// Key code of the right arrow key, as the window system reports it.
pub const KEY_RIGHT: i32 = 1073741903;

/// Key code of the left arrow key.
pub const KEY_LEFT: i32 = 1073741904;

/// Key code of the down arrow key.
pub const KEY_DOWN: i32 = 1073741905;

/// Key code of the up arrow key.
pub const KEY_UP: i32 = 1073741906;

/// Key code of the page-up key.
pub const KEY_PAGEUP: i32 = 1073741899;

/// Key code of the page-down key.
pub const KEY_PAGEDOWN: i32 = 1073741902;

/// Key code of the home key.
pub const KEY_HOME: i32 = 1073741898;

/// Key code of the end key.
pub const KEY_END: i32 = 1073741901;

/// Key code of the insert key.
pub const KEY_INSERT: i32 = 1073741897;

/// Key code of the delete key.
pub const KEY_DELETE: i32 = 127;

/// A mouse button together with the cursor position at the click.
#[derive(Clone, Copy, Debug, PartialEq, Eq)]
pub enum MouseButtonId {
    /// x, y
    Left(i32, i32),
    /// x, y
    Right(i32, i32),
    /// x, y
    Middle(i32, i32),
    /// x, y
    Other(i32, i32),
}

/// One input event, already stripped of everything window-system specific.
#[derive(Clone, Copy, Debug, PartialEq, Eq)]
pub enum IoEvents {
    Quit,
    /// key code
    KeyDown(i32),
    /// key code
    KeyUp(i32),
    ControllerAxisMotion(i32),
    ControllerButtonDown(i32),
    ControllerButtonUp(i32),
    /// x, y, xrel, yrel
    MouseMotion(i32, i32, i32, i32),
    MouseButtonUp(MouseButtonId),
    MouseButtonDown(MouseButtonId),
    /// dx, dy (usually -1 or 1 based on direction)
    MouseWheel(i32, i32),
}

} // verus!
