use raccoonwm::config::{BORDER_FOCUSED, BORDER_UNFOCUSED, BORDER_WIDTH};
use raccoonwm::types::{Direction, Geometry, KeyAction, Keybind, Point, WindowState, XWinProperties};
use raccoonwm::utils::close_window;
use raccoonwm::wm::{has_atom, MouseMode, WindowManager};
use raccoonwm::x::base::InternedAtoms;
use raccoonwm::x::event::{
    ButtonEvent, ConfigureEvent, EnterEvent, KeypressEvent, WindowInfo, XEvent,
};
use raccoonwm::x::xserver::{XConn, XRequest};

fn atoms() -> InternedAtoms {
    InternedAtoms {
        SUPPORTED: 101,
        WM_DELETE_WINDOW: 102,
        WM_TAKE_FOCUS: 103,
        WM_PROTOCOLS: 104,
        WM_WINDOW_TYPE_DESKTOP: 105,
        WM_WINDOW_TYPE_DOCK: 106,
        WM_WINDOW_TYPE_TOOLBAR: 107,
        WM_WINDOW_TYPE_MENU: 108,
        WM_WINDOW_TYPE_UTILITY: 109,
        WM_WINDOW_TYPE_SPLASH: 110,
        WM_WINDOW_TYPE_DIALOG: 111,
        WM_WINDOW_TYPE_DROPDOWN_MENU: 112,
        WM_WINDOW_TYPE_NOTIFICATION: 113,
        WM_WINDOW_TYPE_NORMAL: 114,
        WM_STATE: 115,
        WM_STATE_MODAL: 116,
        WM_STATE_STICKY: 117,
        WM_STATE_MAXIMIZED_VERT: 118,
        WM_STATE_MAXIMIZED_HORZ: 119,
        WM_STATE_SHADED: 120,
        WM_STATE_SKIP_TASKBAR: 121,
        WM_STATE_SKIP_PAGER: 122,
        WM_STATE_HIDDEN: 123,
        WM_STATE_FULLSCREEN: 124,
        WM_STATE_ABOVE: 125,
        WM_STATE_BELOW: 126,
        WM_STATE_DEMANDS_ATTENTION: 127,
    }
}

const ROOT: u32 = 99;

fn conn() -> XConn {
    XConn::new(atoms(), ROOT, 0)
}

fn props(name: &str) -> XWinProperties {
    XWinProperties {
        wm_name: name.to_string(),
        wm_icon_name: format!("{}-icon", name),
        wm_size_hints: None,
        wm_hints: None,
        wm_class: (String::new(), String::new()),
        wm_protocols: None,
        wm_state: WindowState::Normal,
    }
}

fn geom(x: i32, y: i32, width: i32, height: i32) -> Geometry {
    Geometry { x, y, width, height }
}


const META: u32 = 64;

fn keybinds() -> Vec<Keybind> {
    vec![
        (META, 0x31, KeyAction::GotoWorkspace(0)),
        (META, 0x32, KeyAction::GotoWorkspace(1)),
        (META | 1, 0x32, KeyAction::SendWindowTo(1)),
        (META, 0x74, KeyAction::ToggleFocusedState),
        (META, 0xff0d, KeyAction::RunExternal(&["alacritty"])),
        (META, 0xff51, KeyAction::CycleFocus(Direction::Backward)),
        (META | 1, 0xff53, KeyAction::CycleWorkspace(Direction::Forward)),
        (META, 0x77, KeyAction::CloseWindow),
        (META | 1, 0x71, KeyAction::Quit),
    ]
}

fn manager() -> WindowManager {
    let mut wm = WindowManager::register(conn(), 0, Some(geom(0, 0, 1920, 1080)), keybinds());
    wm.take_requests();
    wm
}

fn info(kinds: Option<Vec<u32>>) -> WindowInfo {
    WindowInfo { window_type: kinds, properties: props("w"), geometry: None }
}

fn manager_with(ids: &[u32]) -> WindowManager {
    let mut wm = manager();
    for id in ids {
        wm.on_map_request(*id, &info(None));
    }
    wm.take_requests();
    wm
}

fn ids(wm: &WindowManager) -> Vec<u32> {
    wm.desktop().current().windows.iter().map(|c| c.id()).collect()
}

fn geoms(wm: &WindowManager) -> Vec<Geometry> {
    wm.desktop().current().windows.iter().map(|c| c.geometry()).collect()
}

fn key(mask: u32, keysym: u32) -> KeypressEvent {
    KeypressEvent { mask, keysym }
}

fn configure(id: u32, value_mask: u16, g: Geometry) -> ConfigureEvent {
    ConfigureEvent { id, geom: g, is_root: id == ROOT, value_mask }
}

#[test]
fn register_sets_the_cursor_on_the_root() {
    let mut c = conn();
    c.cursor = 5;
    let mut wm = WindowManager::register(c, 2, Some(geom(0, 0, 800, 600)), keybinds());
    assert_eq!(wm.take_requests(), vec![XRequest::Cursor(ROOT, 5)]);
    assert_eq!(wm.screen().xwindow.id, ROOT);
    assert_eq!(wm.screen().idx, 2);
    assert_eq!(wm.screen().geometry(), geom(0, 0, 800, 600));
    assert_eq!(wm.desktop().len(), 10);
    assert!(wm.desktop().current().is_tiling());
    assert!(!wm.should_quit());
    assert_eq!(wm.mousemode(), MouseMode::Idle);
    assert_eq!(wm.selected(), None);
}

#[test]
fn map_request_adds_a_window_once() {
    let mut wm = manager();
    wm.on_map_request(1, &info(None));
    assert_eq!(ids(&wm), vec![1]);
    assert_eq!(geoms(&wm), vec![geom(0, 0, 1916, 1076)]);
    wm.take_requests();
    wm.on_map_request(1, &info(None));
    assert_eq!(ids(&wm), vec![1]);
    assert_eq!(wm.take_requests(), vec![]);
}

#[test]
fn windows_of_unmanaged_kinds_are_only_shown() {
    let mut wm = manager();
    wm.on_map_request(1, &info(Some(vec![106])));
    assert_eq!(ids(&wm), vec![]);
    assert_eq!(wm.take_requests(), vec![XRequest::MapWindow(1)]);
    for kind in [114, 111, 110, 109, 107] {
        wm.on_map_request(kind, &info(Some(vec![106, kind])));
    }
    assert_eq!(ids(&wm), vec![114, 111, 110, 109, 107]);
    wm.map_window(200, &info(Some(vec![])));
    assert_eq!(ids(&wm).len(), 5);
}

#[test]
fn has_atom_looks_through_the_list() {
    assert!(has_atom(&vec![1, 2, 3], 3));
    assert!(!has_atom(&vec![1, 2, 3], 4));
    assert!(!has_atom(&vec![], 4));
}

#[test]
fn adopts_viewable_windows_only() {
    assert!(WindowManager::adopts(false, 2));
    assert!(!WindowManager::adopts(true, 2));
    assert!(!WindowManager::adopts(false, 0));
    assert!(!WindowManager::adopts(false, 1));
    assert_eq!(xcb::MAP_STATE_VIEWABLE, 2);
}

#[test]
fn unmap_and_destroy_remove_the_window() {
    let mut wm = manager_with(&[1, 2, 3]);
    wm.on_unmap_notify(2);
    assert_eq!(ids(&wm), vec![1, 3]);
    wm.on_destroy_notify(1);
    assert_eq!(ids(&wm), vec![3]);
    assert_eq!(wm.desktop().current().master(), Some(3));
    wm.take_requests();
    wm.on_destroy_notify(42);
    assert_eq!(ids(&wm), vec![3]);
    assert_eq!(wm.take_requests(), vec![]);
}

#[test]
fn unmap_reaches_windows_on_hidden_workspaces() {
    let mut wm = manager_with(&[1, 2]);
    wm.send_window_to(4);
    assert_eq!(wm.desktop().locate(2), Some((4, 0)));
    wm.on_unmap_notify(2);
    assert_eq!(wm.desktop().locate(2), None);
    assert!(wm.desktop().get(4).unwrap().is_empty());
}

#[test]
fn enter_notify_focuses_a_managed_window() {
    let mut wm = manager_with(&[1, 2]);
    wm.on_enter_notify(&EnterEvent { id: 1, mode: 0 });
    assert!(wm.desktop().current().windows.is_focused(1));
    assert_eq!(
        wm.take_requests(),
        vec![
            XRequest::BorderColor(2, BORDER_UNFOCUSED),
            XRequest::DisableEvents(1),
            XRequest::StackAbove(1),
            XRequest::InputFocus(1),
            XRequest::BorderColor(1, BORDER_FOCUSED),
            XRequest::ChildEvents(1),
        ]
    );
    wm.on_enter_notify(&EnterEvent { id: 2, mode: 1 });
    assert!(wm.desktop().current().windows.is_focused(1));
    wm.on_enter_notify(&EnterEvent { id: 2, mode: 3 });
    assert!(wm.desktop().current().windows.is_focused(1));
    wm.on_enter_notify(&EnterEvent { id: 42, mode: 0 });
    assert!(wm.desktop().current().windows.is_focused(1));
    wm.on_enter_notify(&EnterEvent { id: 2, mode: 2 });
    assert!(wm.desktop().current().windows.is_focused(2));
    assert_eq!((xcb::NOTIFY_MODE_NORMAL, xcb::NOTIFY_MODE_UNGRAB), (0, 2));
}

#[test]
fn configure_request_is_refused_for_tiled_windows() {
    let mut wm = manager_with(&[1]);
    wm.on_config_request(&configure(1, 1 | 2 | 4 | 8, geom(10, 20, 300, 200)));
    assert_eq!(geoms(&wm), vec![geom(0, 0, 1916, 1076)]);
    assert_eq!(
        wm.desktop().current().windows.get(0).unwrap().initial_geom(),
        geom(10, 20, 300, 200)
    );
    assert_eq!(
        wm.take_requests(),
        vec![XRequest::Resize(1, 1916, 1076), XRequest::Move(1, 0, 0)]
    );
}

#[test]
fn configure_request_is_honoured_for_floating_windows() {
    let mut wm = manager_with(&[1]);
    wm.toggle_focused_state();
    wm.take_requests();
    wm.on_config_request(&configure(1, 1 | 2 | 4 | 8, geom(10, 20, 300, 200)));
    assert_eq!(geoms(&wm), vec![geom(10, 20, 300, 200)]);
    assert_eq!(wm.take_requests(), vec![XRequest::Resize(1, 300, 200), XRequest::Move(1, 10, 20)]);
    wm.on_config_request(&configure(1, 4, geom(1, 2, 640, 4)));
    assert_eq!(geoms(&wm), vec![geom(0, 0, 640, 160)]);
    wm.on_config_request(&configure(1, 2 | 8, geom(1, 2, 3, 4)));
    assert_eq!(geoms(&wm), vec![geom(0, 2, 100, 4)]);
    wm.take_requests();
    wm.on_config_request(&configure(1, 16 | 32 | 64, geom(1, 2, 3, 4)));
    assert_eq!(geoms(&wm), vec![geom(0, 2, 100, 4)]);
    wm.on_config_request(&configure(42, 15, geom(1, 2, 3, 4)));
    assert_eq!(wm.take_requests(), vec![]);
    assert_eq!(
        (
            xcb::CONFIG_WINDOW_X,
            xcb::CONFIG_WINDOW_Y,
            xcb::CONFIG_WINDOW_WIDTH,
            xcb::CONFIG_WINDOW_HEIGHT
        ),
        (1, 2, 4, 8)
    );
}

#[test]
fn configure_notify_of_the_root_resizes_the_screen() {
    let mut wm = manager_with(&[1, 2]);
    wm.on_config_notify(&configure(ROOT, 0, geom(0, 0, 1000, 500)));
    assert_eq!(wm.screen().geometry(), geom(0, 0, 1000, 500));
    assert_eq!(geoms(&wm), vec![geom(0, 0, 496, 496), geom(500, 0, 496, 496)]);
    let requests = wm.take_requests();
    assert_eq!(requests[0], XRequest::DisableEvents(1));
    assert_eq!(requests[1], XRequest::UnmapWindow(1));
    assert!(requests.contains(&XRequest::MapWindow(1)));
    assert!(requests.contains(&XRequest::MapWindow(2)));
    wm.on_config_notify(&configure(1, 0, geom(0, 0, 10, 10)));
    assert_eq!(wm.screen().geometry(), geom(0, 0, 1000, 500));
    assert_eq!(wm.take_requests(), vec![]);
}

#[test]
fn key_press_runs_the_binding() {
    let mut wm = manager_with(&[1, 2]);
    assert_eq!(wm.on_key_press(&key(META, 0x32)), None);
    assert_eq!(wm.desktop().current_idx(), 1);
    assert_eq!(wm.on_key_press(&key(META, 0x31)), None);
    assert_eq!(wm.desktop().current_idx(), 0);
    assert!(wm.desktop().current().windows.is_focused(1));
    assert_eq!(wm.on_key_press(&key(META | 1, 0x32)), None);
    assert_eq!(ids(&wm), vec![2]);
    assert_eq!(wm.on_key_press(&key(META, 0x74)), None);
    assert!(wm.desktop().current().windows.get(0).unwrap().is_floating());
    assert_eq!(wm.on_key_press(&key(META | 1, 0xff53)), None);
    assert_eq!(wm.desktop().current_idx(), 1);
    assert_eq!(wm.on_key_press(&key(META, 0xff0d)), Some(&["alacritty"][..]));
    assert_eq!(wm.on_key_press(&key(META, 0x99)), None);
    assert!(!wm.should_quit());
    assert_eq!(wm.on_key_press(&key(META | 1, 0x71)), None);
    assert!(wm.should_quit());
}

#[test]
fn key_press_cycles_the_focus() {
    let mut wm = manager_with(&[1, 2, 3]);
    assert!(wm.desktop().current().windows.is_focused(3));
    wm.on_key_press(&key(META, 0xff51));
    assert!(wm.desktop().current().windows.is_focused(2));
    wm.cycle_focus(Direction::Forward);
    wm.cycle_focus(Direction::Forward);
    assert!(wm.desktop().current().windows.is_focused(1));
}

#[test]
fn close_window_asks_politely_where_the_client_listens() {
    let mut wm = manager();
    let mut polite = info(None);
    polite.properties.wm_protocols = Some(vec![102]);
    wm.on_map_request(1, &polite);
    wm.take_requests();
    wm.on_key_press(&key(META, 0x77));
    assert_eq!(wm.take_requests(), vec![XRequest::DeleteWindow(1)]);
    wm.on_map_request(2, &info(None));
    wm.take_requests();
    close_window(&mut wm);
    assert_eq!(wm.take_requests(), vec![XRequest::DestroyWindow(2)]);
    assert_eq!(ids(&wm), vec![1, 2]);
    let mut empty = manager();
    empty.close_window();
    assert_eq!(empty.take_requests(), vec![]);
}

#[test]
fn button_press_selects_and_focuses() {
    let mut wm = manager_with(&[1, 2]);
    wm.on_button_press(&ButtonEvent { child: 0, root_x: 5, root_y: 6, detail: 1 });
    assert_eq!(wm.selected(), None);
    assert_eq!(wm.take_requests(), vec![]);
    wm.on_button_press(&ButtonEvent { child: 1, root_x: 5, root_y: 6, detail: 1 });
    assert_eq!(wm.selected(), Some(1));
    assert_eq!(wm.mousemode(), MouseMode::Move);
    assert!(wm.desktop().current().windows.is_focused(1));
    let requests = wm.take_requests();
    assert_eq!(requests[0], XRequest::GrabPointer(ROOT));
    assert!(requests.contains(&XRequest::InputFocus(1)));
    wm.on_button_press(&ButtonEvent { child: 1, root_x: 5, root_y: 6, detail: 3 });
    assert_eq!(wm.mousemode(), MouseMode::Resize);
    assert_eq!(wm.take_requests(), vec![XRequest::GrabPointer(ROOT)]);
    wm.on_button_press(&ButtonEvent { child: 1, root_x: 5, root_y: 6, detail: 2 });
    assert_eq!(wm.mousemode(), MouseMode::Resize);
    wm.on_button_release();
    assert_eq!(wm.selected(), None);
    assert_eq!(wm.mousemode(), MouseMode::Idle);
    assert_eq!(wm.take_requests(), vec![XRequest::GrabPointer(ROOT), XRequest::UngrabPointer]);
    assert_eq!((xcb::BUTTON_INDEX_1, xcb::BUTTON_INDEX_3, xcb::NONE), (1, 3, 0));
}

#[test]
fn dragging_moves_a_floating_window() {
    let mut wm = manager_with(&[1]);
    wm.toggle_focused_state();
    wm.on_config_request(&configure(1, 15, geom(100, 100, 300, 200)));
    wm.on_button_press(&ButtonEvent { child: 1, root_x: 150, root_y: 150, detail: 1 });
    wm.take_requests();
    wm.on_motion_notify(Point { x: 160, y: 145 });
    assert_eq!(geoms(&wm), vec![geom(110, 95, 300, 200)]);
    assert_eq!(
        wm.take_requests(),
        vec![
            XRequest::BorderColor(1, BORDER_UNFOCUSED),
            XRequest::DisableEvents(1),
            XRequest::StackAbove(1),
            XRequest::InputFocus(1),
            XRequest::BorderColor(1, BORDER_FOCUSED),
            XRequest::ChildEvents(1),
            XRequest::StackAbove(1),
            XRequest::Move(1, 110, 95),
        ]
    );
    wm.on_motion_notify(Point { x: 161, y: 146 });
    assert_eq!(geoms(&wm), vec![geom(111, 96, 300, 200)]);
    wm.on_button_release();
    wm.take_requests();
    wm.on_motion_notify(Point { x: 200, y: 200 });
    assert_eq!(geoms(&wm), vec![geom(111, 96, 300, 200)]);
    assert_eq!(wm.take_requests(), vec![]);
}

#[test]
fn dragging_resizes_with_the_third_button() {
    let mut wm = manager_with(&[1]);
    wm.toggle_focused_state();
    wm.on_config_request(&configure(1, 15, geom(100, 100, 300, 200)));
    wm.on_button_press(&ButtonEvent { child: 1, root_x: 150, root_y: 150, detail: 3 });
    wm.on_motion_notify(Point { x: 170, y: 140 });
    assert_eq!(geoms(&wm), vec![geom(100, 100, 320, 190)]);
}

#[test]
fn dragging_a_tiled_window_takes_it_out_of_the_tiling() {
    let mut wm = manager_with(&[1, 2]);
    wm.on_button_press(&ButtonEvent { child: 2, root_x: 1000, root_y: 10, detail: 1 });
    wm.on_motion_notify(Point { x: 1010, y: 20 });
    let ws = wm.desktop().current();
    assert!(ws.windows.get(1).unwrap().is_floating());
    assert_eq!(geoms(&wm), vec![geom(0, 0, 1916, 1076), geom(970, 10, 956, 1076)]);
    assert_eq!(ws.master(), Some(1));
}

#[test]
fn handle_event_dispatches() {
    let mut wm = manager();
    assert_eq!(wm.handle_event(&XEvent::MapRequest(1, false, info(None))), None);
    assert_eq!(wm.handle_event(&XEvent::MapRequest(2, false, info(None))), None);
    assert_eq!(ids(&wm), vec![1, 2]);
    wm.handle_event(&XEvent::EnterNotify(EnterEvent { id: 1, mode: 0 }));
    assert!(wm.desktop().current().windows.is_focused(1));
    wm.handle_event(&XEvent::ConfigureNotify(configure(ROOT, 0, geom(0, 0, 1000, 500))));
    assert_eq!(wm.screen().geometry(), geom(0, 0, 1000, 500));
    wm.handle_event(&XEvent::ConfigureRequest(configure(1, 15, geom(1, 2, 3, 4))));
    assert_eq!(wm.desktop().current().windows.get(0).unwrap().initial_geom(), geom(1, 2, 3, 4));
    wm.handle_event(&XEvent::ButtonPress(ButtonEvent {
        child: 2,
        root_x: 0,
        root_y: 0,
        detail: 1,
    }));
    assert_eq!(wm.selected(), Some(2));
    wm.handle_event(&XEvent::MotionNotify(Point { x: 3, y: 4 }));
    assert!(wm.desktop().current().windows.get(1).unwrap().is_floating());
    wm.handle_event(&XEvent::ButtonRelease);
    assert_eq!(wm.selected(), None);
    assert_eq!(
        wm.handle_event(&XEvent::KeyPress(key(META, 0xff0d))),
        Some(&["alacritty"][..])
    );
    wm.handle_event(&XEvent::UnmapNotify(2));
    wm.handle_event(&XEvent::DestroyNotify(1));
    assert_eq!(ids(&wm), vec![]);
    wm.take_requests();
    wm.handle_event(&XEvent::KeyRelease);
    wm.handle_event(&XEvent::MapNotify(5));
    wm.handle_event(&XEvent::LeaveNotify(5));
    wm.handle_event(&XEvent::ReparentNotify(5));
    wm.handle_event(&XEvent::Unknown(77));
    assert_eq!(wm.take_requests(), vec![]);
    assert_eq!(BORDER_WIDTH, 2);
}

#[test]
fn start_shows_the_current_workspace() {
    let mut wm = manager_with(&[1]);
    wm.start();
    let requests = wm.take_requests();
    assert!(requests.contains(&XRequest::MapWindow(1)));
    assert!(requests.contains(&XRequest::InputFocus(1)));
}

#[test]
fn workspace_switching_through_the_manager() {
    let mut wm = manager_with(&[1, 2]);
    wm.goto_workspace(0);
    assert_eq!(wm.take_requests(), vec![]);
    wm.goto_workspace(3);
    let requests = wm.take_requests();
    assert!(requests.contains(&XRequest::UnmapWindow(1)));
    assert!(requests.contains(&XRequest::UnmapWindow(2)));
    assert!(!requests.iter().any(|r| matches!(r, XRequest::MapWindow(_))));
    wm.cycle_workspace(Direction::Backward);
    assert_eq!(wm.desktop().current_idx(), 2);
    wm.cycle_workspace(Direction::Backward);
    wm.cycle_workspace(Direction::Backward);
    let requests = wm.take_requests();
    assert_eq!(wm.desktop().current_idx(), 0);
    assert!(requests.contains(&XRequest::MapWindow(1)));
    assert!(requests.contains(&XRequest::MapWindow(2)));
    wm.quit();
    assert!(wm.should_quit());
}

fn sound(wm: &WindowManager) {
    let desktop = wm.desktop();
    assert!(desktop.current_idx() < desktop.len());
    for at in 0..desktop.len() {
        let ws = desktop.get(at).unwrap();
        if ws.is_floating() {
            assert_eq!(ws.master(), None);
        } else {
            assert_eq!(ws.master().is_some(), ws.tiled_count() >= 1);
            if let Some(master) = ws.master() {
                assert_eq!(ws.windows.get(0).unwrap().id(), master);
                assert!(ws.windows.get(0).unwrap().is_tiled());
            }
        }
        match ws.windows.focused_idx() {
            Some(f) => assert!(f < ws.windows.len()),
            None => assert!(ws.is_empty()),
        }
    }
    let mut handles: Vec<u32> = Vec::new();
    for at in 0..desktop.len() {
        for client in desktop.get(at).unwrap().windows.iter() {
            assert!(!handles.contains(&client.id()));
            handles.push(client.id());
        }
    }
}

#[test]
fn the_manager_stays_sound_through_a_long_run_of_events() {
    let mut wm = manager();
    let mut seed: u32 = 12345;
    let mut next = move |bound: u32| {
        seed = seed.wrapping_mul(1664525).wrapping_add(1013904223);
        (seed >> 8) % bound
    };
    let mut counter = 0;
    for _ in 0..2000 {
        let window = 1 + next(12);
        match next(12) {
            0 | 1 | 2 => {
                counter += 1;
                wm.on_map_request(window, &info(None));
            }
            3 => wm.on_unmap_notify(window),
            4 => wm.on_destroy_notify(window),
            5 => wm.on_enter_notify(&EnterEvent { id: window, mode: 0 }),
            6 => {
                wm.on_key_press(&key(META, 0x74));
            }
            7 => {
                wm.on_key_press(&key(META, 0x31 + next(2)));
            }
            8 => {
                wm.on_key_press(&key(META | 1, 0x32));
            }
            9 => {
                wm.on_button_press(&ButtonEvent {
                    child: window,
                    root_x: next(100) as i16,
                    root_y: next(100) as i16,
                    detail: 1 + 2 * next(2) as u8,
                });
                wm.on_motion_notify(Point { x: next(200) as i32, y: next(200) as i32 });
                wm.on_button_release();
            }
            10 => wm.on_config_request(&configure(window, next(16) as u16, geom(1, 2, 30, 40))),
            _ => wm.on_config_notify(&configure(
                ROOT,
                0,
                geom(0, 0, 640 + next(1000) as i32, 480 + next(600) as i32),
            )),
        }
        sound(&wm);
        wm.take_requests();
    }
    assert!(counter > 0);
}
