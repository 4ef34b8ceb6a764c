//! The lists of values in which requests reach the X server, and the
//! lookup of key bindings.
use vstd::prelude::*;
use crate::types::Keybind;
use crate::wm::WindowManager;
use crate::x::base::XWindowID;
use crate::x::proto::{
    config_window_border_width, config_window_height, config_window_sibling,
    config_window_stack_mode, config_window_width, config_window_x, config_window_y,
    cw_border_pixel, cw_cursor, cw_event_mask, event_mask_button_motion, event_mask_button_press,
    event_mask_button_release, event_mask_enter_window, event_mask_no_event,
    event_mask_property_change, event_mask_structure_notify, event_mask_substructure_redirect,
};

verus! {

/// The attributes of the root window under a window manager: requests on
/// its children are redirected, and changes of its structure and of its
/// properties are reported.
pub fn root_attrs() -> (attrs: [(u32, u32); 1])
    ensures
        attrs@ == seq![(2048u32, 0x52_0000u32)],
{
    let redirect = event_mask_substructure_redirect();
    let structure = event_mask_structure_notify();
    let property = event_mask_property_change();
    assert(1048576u32 | 131072u32 | 4194304u32 == 0x52_0000u32) by (bit_vector);
    [(cw_event_mask(), redirect | structure | property)]
}

/// The events of pointer buttons that are grabbed on the root window:
/// presses and releases.
pub fn root_button_grab_mask() -> (mask: u32)
    ensures
        mask == 12,
{
    let press = event_mask_button_press();
    let release = event_mask_button_release();
    assert(4u32 | 8u32 == 12u32) by (bit_vector);
    press | release
}

/// The events that are reported while the pointer is grabbed: releases of
/// buttons, and motion with a button down.
pub fn root_pointer_grab_mask() -> (mask: u32)
    ensures
        mask == 8200,
{
    let release = event_mask_button_release();
    let motion = event_mask_button_motion();
    assert(8u32 | 8192u32 == 8200u32) by (bit_vector);
    release | motion
}

/// The attribute that sets a window's cursor.
pub fn cursor_attrs(cursor_id: u32) -> (attrs: [(u32, u32); 1])
    ensures
        attrs@ == seq![(16384u32, cursor_id)],
{
    [(cw_cursor(), cursor_id)]
}

/// The attribute that paints a window's border.
pub fn border_attrs(color: u32) -> (attrs: [(u32, u32); 1])
    ensures
        attrs@ == seq![(8u32, color)],
{
    [(cw_border_pixel(), color)]
}

/// The attribute that stops the reports of a window's events.
pub fn disable_events() -> (attrs: [(u32, u32); 1])
    ensures
        attrs@ == seq![(2048u32, 0u32)],
{
    [(cw_event_mask(), event_mask_no_event())]
}

/// The attribute that selects the events of a managed window: the
/// pointer's entering it, and changes of its structure.
pub fn child_events() -> (attrs: [(u32, u32); 1])
    ensures
        attrs@ == seq![(2048u32, 131088u32)],
{
    let enter = event_mask_enter_window();
    let structure = event_mask_structure_notify();
    assert(16u32 | 131072u32 == 131088u32) by (bit_vector);
    [(cw_event_mask(), enter | structure)]
}

/// The configuration that puts a window at `(x, y)`.
pub fn configure_move(x: u32, y: u32) -> (values: [(u16, u32); 2])
    ensures
        values@ == seq![(1u16, x), (2u16, y)],
{
    [(config_window_x() as u16, x), (config_window_y() as u16, y)]
}

/// The configuration that gives a window the size `(width, height)`.
pub fn configure_resize(width: u32, height: u32) -> (values: [(u16, u32); 2])
    ensures
        values@ == seq![(4u16, width), (8u16, height)],
{
    [(config_window_width() as u16, width), (config_window_height() as u16, height)]
}

/// The configuration that gives a window's border a width.
pub fn configure_border(width: u32) -> (values: [(u16, u32); 1])
    ensures
        values@ == seq![(16u16, width)],
{
    [(config_window_border_width() as u16, width)]
}

/// The configuration that puts a window above its siblings.
pub fn stack_above() -> (values: [(u16, u32); 1])
    ensures
        values@ == seq![(64u16, 0u32)],
{
    [(config_window_stack_mode() as u16, crate::x::proto::stack_mode_above())]
}

/// The configuration that puts a window above one of its siblings.
pub fn stack_above_sibling(window_id: XWindowID) -> (values: [(u16, u32); 2])
    ensures
        values@ == seq![(64u16, 0u32), (32u16, window_id)],
{
    [
        (config_window_stack_mode() as u16, crate::x::proto::stack_mode_above()),
        (config_window_sibling() as u16, window_id),
    ]
}

/// Whether a binding is for the given modifiers and key.
pub open spec fn binds(binding: Keybind, modm: u32, key: u32) -> bool {
    binding.0 == modm && binding.1 == key
}

/// The first binding of the table for the given modifiers and key.
pub open spec fn bound(keybinds: Seq<Keybind>, modm: u32, key: u32) -> Option<Keybind>
    decreases keybinds.len(),
{
    if keybinds.len() == 0 {
        None
    } else if binds(keybinds[0], modm, key) {
        Some(keybinds[0])
    } else {
        bound(keybinds.drop_first(), modm, key)
    }
}

/// The first binding for the given modifiers and key.
pub fn find_keybind(keybinds: &Vec<Keybind>, modm: u32, key: u32) -> (r: Option<Keybind>)
    ensures
        r == bound(keybinds@, modm, key),
{
    let mut i: usize = 0;
    assert(keybinds@.subrange(0, keybinds@.len() as int) =~= keybinds@);
    while i < keybinds.len()
        invariant
            i <= keybinds@.len(),
            bound(keybinds@, modm, key) == bound(
                keybinds@.subrange(i as int, keybinds@.len() as int),
                modm,
                key,
            ),
        decreases keybinds@.len() - i,
    {
        let kb = keybinds[i];
        proof {
            let rest = keybinds@.subrange(i as int, keybinds@.len() as int);
            assert(rest[0] == kb);
            assert(rest.drop_first() =~= keybinds@.subrange(i + 1, keybinds@.len() as int));
        }
        if kb.0 == modm && kb.1 == key {
            return Some(kb)
        }
        i += 1;
    }
    None
}

/// Closes the focused window of the current workspace.
pub fn close_window(wm: &mut WindowManager)
    requires
        old(wm).wf(),
    ensures
        final(wm).wf(),
        final(wm)@ == old(wm)@.close_window(),
{
    wm.close_window()
}

} // verus!
