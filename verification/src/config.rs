//! What the user of the window manager sets before building it.
use vstd::prelude::*;

verus! {

/// The width of a window's border, in pixels.
pub const BORDER_WIDTH: u32 = 2;

/// The colour of the border of the window that has the focus.
pub const BORDER_FOCUSED: u32 = 0xdddddd;

/// The colour of the border of a window that has not.
pub const BORDER_UNFOCUSED: u32 = 0x555555;

/// The colour of the border of a window that asks for attention.
pub const BORDER_URGENT: u32 = 0xff0000;

} // verus!
