//! The numbers of the X protocol that the window manager uses, as the
//! `xcb` crate defines them.
//!
//! Nothing here is proved: each function hands out one constant of `xcb`,
//! and states the number that the protocol gives it.
use vstd::prelude::*;

verus! {

/// `xcb::CW_BORDER_PIXEL`: in a list of window attributes, marks the colour
/// of the border.
#[verifier::external_body]
pub(crate) fn cw_border_pixel() -> (r: u32)
    ensures
        r == 8,
{
    xcb::CW_BORDER_PIXEL
}

/// `xcb::CW_EVENT_MASK`: in a list of window attributes, marks the events
/// that are reported.
#[verifier::external_body]
pub(crate) fn cw_event_mask() -> (r: u32)
    ensures
        r == 2048,
{
    xcb::CW_EVENT_MASK
}

/// `xcb::CW_CURSOR`: in a list of window attributes, marks the cursor.
#[verifier::external_body]
pub(crate) fn cw_cursor() -> (r: u32)
    ensures
        r == 16384,
{
    xcb::CW_CURSOR
}

/// `xcb::EVENT_MASK_NO_EVENT`: the mask that selects no event.
#[verifier::external_body]
pub(crate) fn event_mask_no_event() -> (r: u32)
    ensures
        r == 0,
{
    xcb::EVENT_MASK_NO_EVENT
}

/// `xcb::EVENT_MASK_BUTTON_PRESS`: selects the presses of pointer buttons.
#[verifier::external_body]
pub(crate) fn event_mask_button_press() -> (r: u32)
    ensures
        r == 4,
{
    xcb::EVENT_MASK_BUTTON_PRESS
}

/// `xcb::EVENT_MASK_BUTTON_RELEASE`: selects the releases of pointer
/// buttons.
#[verifier::external_body]
pub(crate) fn event_mask_button_release() -> (r: u32)
    ensures
        r == 8,
{
    xcb::EVENT_MASK_BUTTON_RELEASE
}

/// `xcb::EVENT_MASK_ENTER_WINDOW`: selects the pointer's entering a
/// window.
#[verifier::external_body]
pub(crate) fn event_mask_enter_window() -> (r: u32)
    ensures
        r == 16,
{
    xcb::EVENT_MASK_ENTER_WINDOW
}

/// `xcb::EVENT_MASK_BUTTON_MOTION`: selects the pointer's moving while a
/// button is down.
#[verifier::external_body]
pub(crate) fn event_mask_button_motion() -> (r: u32)
    ensures
        r == 8192,
{
    xcb::EVENT_MASK_BUTTON_MOTION
}

/// `xcb::EVENT_MASK_STRUCTURE_NOTIFY`: selects changes of a window's own
/// structure.
#[verifier::external_body]
pub(crate) fn event_mask_structure_notify() -> (r: u32)
    ensures
        r == 131072,
{
    xcb::EVENT_MASK_STRUCTURE_NOTIFY
}

/// `xcb::EVENT_MASK_SUBSTRUCTURE_REDIRECT`: has the requests on a window's
/// children sent to the client that selects it.
#[verifier::external_body]
pub(crate) fn event_mask_substructure_redirect() -> (r: u32)
    ensures
        r == 1048576,
{
    xcb::EVENT_MASK_SUBSTRUCTURE_REDIRECT
}

/// `xcb::EVENT_MASK_PROPERTY_CHANGE`: selects changes of a window's
/// properties.
#[verifier::external_body]
pub(crate) fn event_mask_property_change() -> (r: u32)
    ensures
        r == 4194304,
{
    xcb::EVENT_MASK_PROPERTY_CHANGE
}

/// `xcb::CONFIG_WINDOW_X`: in a configuration, marks the x coordinate.
#[verifier::external_body]
pub(crate) fn config_window_x() -> (r: u32)
    ensures
        r == 1,
{
    xcb::CONFIG_WINDOW_X
}

/// `xcb::CONFIG_WINDOW_Y`: in a configuration, marks the y coordinate.
#[verifier::external_body]
pub(crate) fn config_window_y() -> (r: u32)
    ensures
        r == 2,
{
    xcb::CONFIG_WINDOW_Y
}

/// `xcb::CONFIG_WINDOW_WIDTH`: in a configuration, marks the width.
#[verifier::external_body]
pub(crate) fn config_window_width() -> (r: u32)
    ensures
        r == 4,
{
    xcb::CONFIG_WINDOW_WIDTH
}

/// `xcb::CONFIG_WINDOW_HEIGHT`: in a configuration, marks the height.
#[verifier::external_body]
pub(crate) fn config_window_height() -> (r: u32)
    ensures
        r == 8,
{
    xcb::CONFIG_WINDOW_HEIGHT
}

/// `xcb::CONFIG_WINDOW_BORDER_WIDTH`: in a configuration, marks the width
/// of the border.
#[verifier::external_body]
pub(crate) fn config_window_border_width() -> (r: u32)
    ensures
        r == 16,
{
    xcb::CONFIG_WINDOW_BORDER_WIDTH
}

/// `xcb::CONFIG_WINDOW_SIBLING`: in a configuration, marks the sibling
/// that the stacking refers to.
#[verifier::external_body]
pub(crate) fn config_window_sibling() -> (r: u32)
    ensures
        r == 32,
{
    xcb::CONFIG_WINDOW_SIBLING
}

/// `xcb::CONFIG_WINDOW_STACK_MODE`: in a configuration, marks the place in
/// the stack.
#[verifier::external_body]
pub(crate) fn config_window_stack_mode() -> (r: u32)
    ensures
        r == 64,
{
    xcb::CONFIG_WINDOW_STACK_MODE
}

/// `xcb::STACK_MODE_ABOVE`: the place above the siblings.
#[verifier::external_body]
pub(crate) fn stack_mode_above() -> (r: u32)
    ensures
        r == 0,
{
    xcb::STACK_MODE_ABOVE
}

/// `xcb::NOTIFY_MODE_NORMAL`: the pointer crossed a border while no grab
/// was active.
#[verifier::external_body]
pub(crate) fn notify_mode_normal() -> (r: u32)
    ensures
        r == 0,
{
    xcb::NOTIFY_MODE_NORMAL
}

/// `xcb::NOTIFY_MODE_UNGRAB`: the crossing is reported because a grab
/// ended.
#[verifier::external_body]
pub(crate) fn notify_mode_ungrab() -> (r: u32)
    ensures
        r == 2,
{
    xcb::NOTIFY_MODE_UNGRAB
}

/// `xcb::BUTTON_INDEX_1`: the first pointer button.
#[verifier::external_body]
pub(crate) fn button_index_1() -> (r: u32)
    ensures
        r == 1,
{
    xcb::BUTTON_INDEX_1
}

/// `xcb::BUTTON_INDEX_3`: the third pointer button.
#[verifier::external_body]
pub(crate) fn button_index_3() -> (r: u32)
    ensures
        r == 3,
{
    xcb::BUTTON_INDEX_3
}

/// `xcb::MAP_STATE_VIEWABLE`: the window and all its ancestors are mapped.
#[verifier::external_body]
pub(crate) fn map_state_viewable() -> (r: u32)
    ensures
        r == 2,
{
    xcb::MAP_STATE_VIEWABLE
}

/// `xcb::NONE`: the handle that names no window.
#[verifier::external_body]
pub(crate) fn none() -> (r: u32)
    ensures
        r == 0,
{
    xcb::NONE
}

/// `xcb::MOD_MASK_SHIFT`: the shift key among the modifiers.
#[verifier::external_body]
pub(crate) fn mod_mask_shift() -> (r: u32)
    ensures
        r == 1,
{
    xcb::MOD_MASK_SHIFT
}

/// `xcb::MOD_MASK_CONTROL`: the control key among the modifiers.
#[verifier::external_body]
pub(crate) fn mod_mask_control() -> (r: u32)
    ensures
        r == 4,
{
    xcb::MOD_MASK_CONTROL
}

/// `xcb::MOD_MASK_1`: the first modifier, by custom the alt key.
#[verifier::external_body]
pub(crate) fn mod_mask_1() -> (r: u32)
    ensures
        r == 8,
{
    xcb::MOD_MASK_1
}

/// `xcb::MOD_MASK_4`: the fourth modifier, by custom the meta key.
#[verifier::external_body]
pub(crate) fn mod_mask_4() -> (r: u32)
    ensures
        r == 64,
{
    xcb::MOD_MASK_4
}

} // verus!
