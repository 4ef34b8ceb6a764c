use raccoonwm::types::{Direction, KeyAction, Keybind};
use raccoonwm::utils::{
    border_attrs, child_events, configure_border, configure_move, configure_resize, cursor_attrs,
    disable_events, find_keybind, root_attrs, root_button_grab_mask, root_pointer_grab_mask,
    stack_above, stack_above_sibling,
};

#[test]
fn attribute_lists() {
    assert_eq!(root_attrs(), [(0x800, 0x100000 | 0x20000 | 0x400000)]);
    assert_eq!(cursor_attrs(9), [(0x4000, 9)]);
    assert_eq!(border_attrs(0xff0000), [(8, 0xff0000)]);
    assert_eq!(disable_events(), [(0x800, 0)]);
    assert_eq!(child_events(), [(0x800, 0x10 | 0x20000)]);
    assert_eq!(root_button_grab_mask(), 4 | 8);
    assert_eq!(root_pointer_grab_mask(), 8 | 0x2000);
}

#[test]
fn attribute_lists_agree_with_xcb() {
    assert_eq!(
        root_attrs(),
        [(
            xcb::CW_EVENT_MASK,
            xcb::EVENT_MASK_SUBSTRUCTURE_REDIRECT
                | xcb::EVENT_MASK_STRUCTURE_NOTIFY
                | xcb::EVENT_MASK_PROPERTY_CHANGE
        )]
    );
    assert_eq!(cursor_attrs(9), [(xcb::CW_CURSOR, 9)]);
    assert_eq!(border_attrs(1), [(xcb::CW_BORDER_PIXEL, 1)]);
    assert_eq!(disable_events(), [(xcb::CW_EVENT_MASK, xcb::EVENT_MASK_NO_EVENT)]);
    assert_eq!(
        child_events(),
        [(xcb::CW_EVENT_MASK, xcb::EVENT_MASK_ENTER_WINDOW | xcb::EVENT_MASK_STRUCTURE_NOTIFY)]
    );
    assert_eq!(
        root_button_grab_mask(),
        xcb::EVENT_MASK_BUTTON_PRESS | xcb::EVENT_MASK_BUTTON_RELEASE
    );
    assert_eq!(
        root_pointer_grab_mask(),
        xcb::EVENT_MASK_BUTTON_RELEASE | xcb::EVENT_MASK_BUTTON_MOTION
    );
}

#[test]
fn configurations() {
    assert_eq!(configure_move(10, 20), [(1, 10), (2, 20)]);
    assert_eq!(configure_resize(30, 40), [(4, 30), (8, 40)]);
    assert_eq!(configure_border(2), [(16, 2)]);
    assert_eq!(stack_above(), [(64, 0)]);
    assert_eq!(stack_above_sibling(7), [(64, 0), (32, 7)]);
}

#[test]
fn configurations_agree_with_xcb() {
    assert_eq!(
        configure_move(10, 20),
        [(xcb::CONFIG_WINDOW_X as u16, 10), (xcb::CONFIG_WINDOW_Y as u16, 20)]
    );
    assert_eq!(
        configure_resize(30, 40),
        [(xcb::CONFIG_WINDOW_WIDTH as u16, 30), (xcb::CONFIG_WINDOW_HEIGHT as u16, 40)]
    );
    assert_eq!(configure_border(2), [(xcb::CONFIG_WINDOW_BORDER_WIDTH as u16, 2)]);
    assert_eq!(stack_above(), [(xcb::CONFIG_WINDOW_STACK_MODE as u16, xcb::STACK_MODE_ABOVE)]);
    assert_eq!(
        stack_above_sibling(7),
        [
            (xcb::CONFIG_WINDOW_STACK_MODE as u16, xcb::STACK_MODE_ABOVE),
            (xcb::CONFIG_WINDOW_SIBLING as u16, 7)
        ]
    );
}

#[test]
fn find_keybind_takes_the_first_match() {
    let keybinds: Vec<Keybind> = vec![
        (64, 0x31, KeyAction::GotoWorkspace(0)),
        (65, 0x31, KeyAction::SendWindowTo(0)),
        (64, 0x31, KeyAction::Quit),
        (64, 0xff51, KeyAction::CycleFocus(Direction::Backward)),
    ];
    assert_eq!(find_keybind(&keybinds, 64, 0x31), Some((64, 0x31, KeyAction::GotoWorkspace(0))));
    assert_eq!(find_keybind(&keybinds, 65, 0x31), Some((65, 0x31, KeyAction::SendWindowTo(0))));
    assert_eq!(
        find_keybind(&keybinds, 64, 0xff51),
        Some((64, 0xff51, KeyAction::CycleFocus(Direction::Backward)))
    );
    assert_eq!(find_keybind(&keybinds, 64, 0x32), None);
    assert_eq!(find_keybind(&Vec::new(), 64, 0x31), None);
}
