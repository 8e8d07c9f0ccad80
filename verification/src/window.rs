//! The window that the panel is drawn in: one top-level window of a fixed
//! initial size, its buttons stacked from top to bottom.

use vstd::prelude::*;

verus! {

/// The identifier that the program registers under.
pub const APPLICATION_ID: &'static str = "com.github.gtk-rs.examples.json_buttons";

/// The title of the window.
pub const WINDOW_TITLE: &'static str = "JSON Button Display";

/// The initial width of the window, in pixels.
pub const WINDOW_WIDTH: i32 = 350;

/// The initial height of the window, in pixels.
pub const WINDOW_HEIGHT: i32 = 70;

/// The width of the border around the stack of buttons, in pixels.
pub const BORDER_WIDTH: u32 = 10;

/// The space between two buttons of the stack, in pixels.
pub const BUTTON_SPACING: i32 = 5;

} // verus!
