//! X11 keysym names of the IR-remote keys on Tizen TVs, for
//! [`KeyGrab`](crate::window::KeyGrab).

use vstd::prelude::*;

verus! {

/// Remote left arrow.
pub const LEFT: &'static str = "Left";
/// Remote right arrow.
pub const RIGHT: &'static str = "Right";
/// Remote up arrow.
pub const UP: &'static str = "Up";
/// Remote down arrow.
pub const DOWN: &'static str = "Down";
/// Remote "OK" / "Enter".
pub const ENTER: &'static str = "Return";
/// Numeric-pad Enter.
pub const KP_ENTER: &'static str = "KP_Enter";
/// Remote "Back".
pub const BACK: &'static str = "XF86Back";
/// Keyboard "Escape".
pub const ESCAPE: &'static str = "Escape";
/// Tab.
pub const TAB: &'static str = "Tab";
/// Backspace.
pub const BACKSPACE: &'static str = "BackSpace";
/// Space.
pub const SPACE: &'static str = "space";
/// Home.
pub const HOME: &'static str = "Home";
/// End.
pub const END: &'static str = "End";
/// Page Up.
pub const PAGE_UP: &'static str = "Page_Up";
/// Page Down.
pub const PAGE_DOWN: &'static str = "Page_Down";
/// Delete.
pub const DELETE: &'static str = "Delete";
/// Insert.
pub const INSERT: &'static str = "Insert";

} // verus!
