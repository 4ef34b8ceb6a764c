use raccoonwm::desktop::Screen;
use raccoonwm::layout::LayoutType;
use raccoonwm::types::{Geometry, WindowState, XWinProperties};
use raccoonwm::window::Client;
use raccoonwm::workspace::Workspace;
use raccoonwm::x::base::InternedAtoms;
use raccoonwm::x::xserver::{XConn, XRequest};

fn atoms() -> InternedAtoms {
    InternedAtoms {
        SUPPORTED: 101,
        WM_DELETE_WINDOW: 102,
        WM_TAKE_FOCUS: 103,
        WM_PROTOCOLS: 104,
        WM_WINDOW_TYPE_DESKTOP: 105,
        WM_WINDOW_TYPE_DOCK: 106,
        WM_WINDOW_TYPE_TOOLBAR: 107,
        WM_WINDOW_TYPE_MENU: 108,
        WM_WINDOW_TYPE_UTILITY: 109,
        WM_WINDOW_TYPE_SPLASH: 110,
        WM_WINDOW_TYPE_DIALOG: 111,
        WM_WINDOW_TYPE_DROPDOWN_MENU: 112,
        WM_WINDOW_TYPE_NOTIFICATION: 113,
        WM_WINDOW_TYPE_NORMAL: 114,
        WM_STATE: 115,
        WM_STATE_MODAL: 116,
        WM_STATE_STICKY: 117,
        WM_STATE_MAXIMIZED_VERT: 118,
        WM_STATE_MAXIMIZED_HORZ: 119,
        WM_STATE_SHADED: 120,
        WM_STATE_SKIP_TASKBAR: 121,
        WM_STATE_SKIP_PAGER: 122,
        WM_STATE_HIDDEN: 123,
        WM_STATE_FULLSCREEN: 124,
        WM_STATE_ABOVE: 125,
        WM_STATE_BELOW: 126,
        WM_STATE_DEMANDS_ATTENTION: 127,
    }
}

const ROOT: u32 = 99;

fn conn() -> XConn {
    XConn::new(atoms(), ROOT, 0)
}

fn props(name: &str) -> XWinProperties {
    XWinProperties {
        wm_name: name.to_string(),
        wm_icon_name: format!("{}-icon", name),
        wm_size_hints: None,
        wm_hints: None,
        wm_class: (String::new(), String::new()),
        wm_protocols: None,
        wm_state: WindowState::Normal,
    }
}

fn geom(x: i32, y: i32, width: i32, height: i32) -> Geometry {
    Geometry { x, y, width, height }
}

fn screen() -> Screen {
    let mut screen = Screen::new(0, ROOT);
    screen.xwindow.set_geometry(geom(0, 0, 1920, 1080));
    screen
}

fn ids(ws: &Workspace) -> Vec<u32> {
    ws.windows.iter().map(|c| c.id()).collect()
}

fn floating_client(id: u32) -> Client {
    Client::floating(id, &props("f"))
}

fn tiled_client(id: u32) -> Client {
    Client::tiled(id, &props("t"))
}

#[test]
fn with_layout_gives_an_empty_workspace() {
    let ws = Workspace::with_layout(LayoutType::Floating);
    assert!(ws.is_empty());
    assert!(ws.is_floating());
    assert!(!ws.is_tiling());
    assert_eq!(ws.master(), None);
    let ws = Workspace::with_layout(LayoutType::DTiled);
    assert!(ws.is_tiling());
    assert!(!ws.is_floating());
    assert_eq!(ws.tiled_count(), 0);
    assert_eq!(ws.floating_count(), 0);
}

#[test]
fn manual_tiling_falls_back_to_dynamic_tiling() {
    let ws = Workspace::with_layout(LayoutType::MTiled);
    assert_eq!(ws.layout, LayoutType::DTiled);
    let ws = Workspace::default();
    assert_eq!(ws.layout, LayoutType::DTiled);
    let mut ws = Workspace::with_layout(LayoutType::Floating);
    ws.set_layout(LayoutType::MTiled);
    assert_eq!(ws.layout, LayoutType::Floating);
}

#[test]
fn push_window_makes_the_first_tiled_client_master() {
    let mut ws = Workspace::with_layout(LayoutType::DTiled);
    ws.push_window(floating_client(1));
    assert_eq!(ws.master(), None);
    ws.push_window(tiled_client(2));
    assert_eq!(ws.master(), Some(2));
    assert_eq!(ids(&ws), vec![2, 1]);
    ws.push_window(tiled_client(3));
    assert_eq!(ws.master(), Some(2));
    assert_eq!(ids(&ws), vec![2, 1, 3]);
    assert_eq!(ws.tiled_count(), 2);
    assert_eq!(ws.floating_count(), 1);
}

#[test]
fn set_master_moves_the_client_to_the_front() {
    let mut ws = Workspace::with_layout(LayoutType::DTiled);
    ws.push_window(tiled_client(1));
    ws.push_window(tiled_client(2));
    ws.push_window(tiled_client(3));
    ws.set_master(3);
    assert_eq!(ws.master(), Some(3));
    assert_eq!(ids(&ws), vec![3, 2, 1]);
    assert!(ws.is_master(3));
    assert!(!ws.is_master(1));
}

#[test]
fn set_master_ignores_a_window_that_is_not_there() {
    let mut ws = Workspace::with_layout(LayoutType::DTiled);
    ws.push_window(tiled_client(1));
    ws.set_master(9);
    assert_eq!(ws.master(), Some(1));
    assert_eq!(ids(&ws), vec![1]);
}

#[test]
fn unset_master_clears_the_master() {
    let mut ws = Workspace::with_layout(LayoutType::DTiled);
    ws.push_window(tiled_client(1));
    ws.unset_master();
    assert_eq!(ws.master(), None);
}

#[test]
fn promote_out_of_bounds_does_nothing() {
    let mut ws = Workspace::with_layout(LayoutType::DTiled);
    ws.push_window(tiled_client(1));
    ws.promote(5);
    assert_eq!(ws.master(), Some(1));
}

#[test]
fn elect_takes_the_first_tiled_client() {
    let mut ws = Workspace::with_layout(LayoutType::DTiled);
    ws.push_window(tiled_client(1));
    ws.push_window(floating_client(2));
    ws.push_window(tiled_client(3));
    ws.unset_master();
    ws.windows.move_front(1);
    assert_eq!(ids(&ws), vec![2, 1, 3]);
    assert_eq!(ws.first_tiled(), Some(1));
    ws.elect();
    assert_eq!(ws.master(), Some(1));
    assert_eq!(ids(&ws), vec![1, 2, 3]);
}

#[test]
fn set_layout_keeps_the_master_rule() {
    let mut ws = Workspace::with_layout(LayoutType::DTiled);
    ws.push_window(tiled_client(1));
    ws.push_window(floating_client(2));
    ws.set_layout(LayoutType::Floating);
    assert!(ws.is_floating());
    assert_eq!(ws.master(), None);
    ws.set_layout(LayoutType::DTiled);
    assert!(ws.is_tiling());
    assert_eq!(ws.master(), Some(1));
}

#[test]
fn contains_gives_the_index() {
    let mut ws = Workspace::with_layout(LayoutType::DTiled);
    ws.push_window(tiled_client(1));
    ws.push_window(tiled_client(2));
    assert_eq!(ws.contains(1), Some(0));
    assert_eq!(ws.contains(2), Some(1));
    assert_eq!(ws.contains(3), None);
}

#[test]
fn fallback_is_the_master_or_the_first_window() {
    let mut ws = Workspace::with_layout(LayoutType::DTiled);
    assert_eq!(ws.fallback(), None);
    ws.push_window(floating_client(1));
    assert_eq!(ws.fallback(), Some(1));
    ws.push_window(tiled_client(2));
    ws.push_window(floating_client(3));
    assert_eq!(ws.fallback(), Some(2));
}

#[test]
fn dragging_a_floating_window_moves_it() {
    let mut ws = Workspace::with_layout(LayoutType::Floating);
    let mut c = conn();
    ws.add_window(&mut c, &screen(), 1, &props("a"), Some(geom(10, 20, 300, 200)));
    c.take_requests();
    ws.drag_move(&mut c, &screen(), 0, 5, -7);
    assert_eq!(ws.windows.get(0).unwrap().geometry(), geom(15, 13, 300, 200));
    assert_eq!(c.take_requests(), vec![XRequest::Move(1, 15, 13)]);
    ws.drag_resize(&mut c, &screen(), 0, -100, 50);
    assert_eq!(ws.windows.get(0).unwrap().geometry(), geom(15, 13, 200, 250));
    assert_eq!(c.take_requests(), vec![XRequest::Resize(1, 200, 250)]);
}

#[test]
fn dragging_out_of_range_does_nothing() {
    let mut ws = Workspace::with_layout(LayoutType::Floating);
    let mut c = conn();
    ws.add_window(&mut c, &screen(), 1, &props("a"), Some(geom(i32::MAX - 1, 20, 300, 200)));
    c.take_requests();
    ws.drag_move(&mut c, &screen(), 0, 5, 0);
    assert_eq!(ws.windows.get(0).unwrap().geometry(), geom(i32::MAX - 1, 20, 300, 200));
    ws.drag_resize(&mut c, &screen(), 0, 0, i32::MAX);
    assert_eq!(ws.windows.get(0).unwrap().geometry(), geom(i32::MAX - 1, 20, 300, 200));
    ws.drag_move(&mut c, &screen(), 3, 5, 0);
    assert_eq!(c.take_requests(), vec![]);
}

#[test]
fn dragging_a_tiled_window_makes_it_float() {
    let mut ws = Workspace::with_layout(LayoutType::DTiled);
    let mut c = conn();
    ws.add_window(&mut c, &screen(), 1, &props("a"), None);
    ws.add_window(&mut c, &screen(), 2, &props("b"), None);
    c.take_requests();
    ws.drag_move(&mut c, &screen(), 1, 10, 10);
    let dragged = ws.windows.get(1).unwrap();
    assert!(dragged.is_floating());
    assert_eq!(dragged.geometry(), geom(970, 10, 956, 1076));
    assert_eq!(ws.windows.get(0).unwrap().geometry(), geom(0, 0, 1916, 1076));
    assert_eq!(ws.master(), Some(1));
}

#[test]
fn indexing_gives_the_client() {
    let mut ws = Workspace::with_layout(LayoutType::DTiled);
    ws.push_window(tiled_client(1));
    ws.push_window(tiled_client(2));
    assert_eq!(ws[0].id(), 1);
    assert_eq!(ws[1].id(), 2);
}
