use raccoonwm::config::{BORDER_FOCUSED, BORDER_UNFOCUSED, BORDER_URGENT};
use raccoonwm::ring::Ring;
use raccoonwm::types::{BorderStyle, Geometry, SizeHints, WindowState, WmHints, XWinProperties};
use raccoonwm::window::{
    ensure_in_bounds, Client, ClientRing, MIN_ONSCREEN, WIN_HEIGHT_MIN, WIN_WIDTH_MIN,
};
use raccoonwm::x::base::{InternedAtoms, XWindow};
use raccoonwm::x::xserver::{XConn, XRequest};

fn atoms() -> InternedAtoms {
    InternedAtoms {
        SUPPORTED: 101,
        WM_DELETE_WINDOW: 102,
        WM_TAKE_FOCUS: 103,
        WM_PROTOCOLS: 104,
        WM_WINDOW_TYPE_DESKTOP: 105,
        WM_WINDOW_TYPE_DOCK: 106,
        WM_WINDOW_TYPE_TOOLBAR: 107,
        WM_WINDOW_TYPE_MENU: 108,
        WM_WINDOW_TYPE_UTILITY: 109,
        WM_WINDOW_TYPE_SPLASH: 110,
        WM_WINDOW_TYPE_DIALOG: 111,
        WM_WINDOW_TYPE_DROPDOWN_MENU: 112,
        WM_WINDOW_TYPE_NOTIFICATION: 113,
        WM_WINDOW_TYPE_NORMAL: 114,
        WM_STATE: 115,
        WM_STATE_MODAL: 116,
        WM_STATE_STICKY: 117,
        WM_STATE_MAXIMIZED_VERT: 118,
        WM_STATE_MAXIMIZED_HORZ: 119,
        WM_STATE_SHADED: 120,
        WM_STATE_SKIP_TASKBAR: 121,
        WM_STATE_SKIP_PAGER: 122,
        WM_STATE_HIDDEN: 123,
        WM_STATE_FULLSCREEN: 124,
        WM_STATE_ABOVE: 125,
        WM_STATE_BELOW: 126,
        WM_STATE_DEMANDS_ATTENTION: 127,
    }
}

const ROOT: u32 = 99;

fn conn() -> XConn {
    XConn::new(atoms(), ROOT, 0)
}

fn props(name: &str) -> XWinProperties {
    XWinProperties {
        wm_name: name.to_string(),
        wm_icon_name: format!("{}-icon", name),
        wm_size_hints: None,
        wm_hints: None,
        wm_class: (String::new(), String::new()),
        wm_protocols: None,
        wm_state: WindowState::Normal,
    }
}

fn geom(x: i32, y: i32, width: i32, height: i32) -> Geometry {
    Geometry { x, y, width, height }
}


fn hints(position: Option<(i32, i32)>, size: Option<(i32, i32)>) -> SizeHints {
    SizeHints {
        position,
        size,
        min_size: None,
        max_size: None,
        resize: None,
        min_aspect: None,
        max_aspect: None,
        base: None,
        gravity: None,
    }
}

fn ring_of(list: &[u32]) -> ClientRing {
    let mut ring: ClientRing = Ring::new();
    for id in list {
        ring.append(Client::tiled(*id, &props("w")));
    }
    ring
}

#[test]
fn new_clients_start_from_the_properties() {
    let client = Client::tiled(7, &props("term"));
    assert_eq!(client.id(), 7);
    assert_eq!(client.name, "term");
    assert_eq!(client.icon_name, "term-icon");
    assert!(client.is_tiled());
    assert!(!client.is_floating());
    assert_eq!(client.geometry(), geom(0, 0, 0, 0));
    assert_eq!((client.x(), client.y(), client.width(), client.height()), (0, 0, 0, 0));
    assert_eq!(client.initial_geom(), geom(0, 0, 160, 100));
    assert!(!client.is_urgent());
    assert_eq!(client.mapped_state(), WindowState::Normal);
    assert!(!client.supports(102));
    let client = Client::floating(8, &props("dialog"));
    assert!(client.is_floating());
    assert!(!client.is_tiled());
}

#[test]
fn toggle_state_flips_between_tiled_and_floating() {
    let mut client = Client::tiled(1, &props("a"));
    client.toggle_state();
    assert!(client.is_floating());
    client.toggle_state();
    assert!(client.is_tiled());
    client.set_floating();
    assert!(client.is_floating());
    client.set_tiled();
    assert!(client.is_tiled());
}

#[test]
fn set_geometry_is_local() {
    let mut client = Client::tiled(1, &props("a"));
    client.set_geometry(geom(1, 2, 3, 4));
    assert_eq!(client.geometry(), geom(1, 2, 3, 4));
    assert_eq!((client.x(), client.y(), client.width(), client.height()), (1, 2, 3, 4));
}

#[test]
fn update_geometry_asks_for_size_then_place() {
    let mut client = Client::tiled(1, &props("a"));
    client.set_geometry(geom(1, 2, 3, 4));
    let mut c = conn();
    client.update_geometry(&mut c);
    assert_eq!(c.take_requests(), vec![XRequest::Resize(1, 3, 4), XRequest::Move(1, 1, 2)]);
    client.set_and_update_geometry(&mut c, geom(5, 6, 7, 8));
    assert_eq!(client.geometry(), geom(5, 6, 7, 8));
    assert_eq!(c.take_requests(), vec![XRequest::Resize(1, 7, 8), XRequest::Move(1, 5, 6)]);
}

#[test]
fn do_move_and_do_resize_are_relative() {
    let mut client = Client::floating(1, &props("a"));
    client.set_geometry(geom(10, 20, 300, 200));
    let mut c = conn();
    client.do_move(&mut c, -15, 5);
    assert_eq!(client.geometry(), geom(-5, 25, 300, 200));
    client.do_resize(&mut c, 50, -250);
    assert_eq!(client.geometry(), geom(-5, 25, 350, -50));
    assert_eq!(c.take_requests(), vec![XRequest::Move(1, -5, 25), XRequest::Resize(1, 350, -50)]);
}

#[test]
fn set_border_uses_the_colour_of_the_style() {
    let client = Client::tiled(1, &props("a"));
    let mut c = conn();
    client.set_border(&mut c, BorderStyle::Focused);
    client.set_border(&mut c, BorderStyle::Unfocused);
    client.set_border(&mut c, BorderStyle::Urgent);
    assert_eq!(
        c.take_requests(),
        vec![
            XRequest::BorderColor(1, BORDER_FOCUSED),
            XRequest::BorderColor(1, BORDER_UNFOCUSED),
            XRequest::BorderColor(1, BORDER_URGENT),
        ]
    );
    assert_eq!((BORDER_FOCUSED, BORDER_UNFOCUSED, BORDER_URGENT), (0xdddddd, 0x555555, 0xff0000));
}

#[test]
fn map_and_unmap() {
    let mut client = Client::tiled(1, &props("a"));
    let mut c = conn();
    client.map(&mut c, &props("b"));
    assert_eq!(client.name, "b");
    client.unmap(&mut c);
    assert_eq!(c.take_requests(), vec![XRequest::MapWindow(1), XRequest::UnmapWindow(1)]);
}

#[test]
fn set_supported_adds_protocols() {
    let mut client = Client::tiled(1, &props("a"));
    client.set_supported(&None);
    assert!(!client.supports(5));
    client.set_supported(&Some(vec![5, 6, 5]));
    assert!(client.supports(5));
    assert!(client.supports(6));
    assert!(!client.supports(7));
    client.set_supported(&Some(vec![7]));
    assert!(client.supports(5));
    assert!(client.supports(7));
}

#[test]
fn clone_keeps_everything() {
    let mut client = Client::floating(1, &props("a"));
    client.set_geometry(geom(1, 2, 3, 4));
    client.set_supported(&Some(vec![5]));
    let copy = client.clone();
    assert_eq!(copy.id(), 1);
    assert_eq!(copy.name, "a");
    assert_eq!(copy.geometry(), geom(1, 2, 3, 4));
    assert!(copy.is_floating());
    assert!(copy.supports(5));
    assert!(!copy.supports(6));
    assert!(copy == client);
    assert!(copy != Client::floating(2, &props("a")));
}

#[test]
fn update_properties_reads_hints() {
    let mut client = Client::tiled(1, &props("a"));
    let mut p = props("b");
    p.wm_hints = Some(WmHints { state: WindowState::Iconic, urgent: true });
    p.wm_size_hints = Some(hints(Some((5, 6)), Some((70, 80))));
    p.wm_protocols = Some(vec![102]);
    client.update_properties(&p);
    assert_eq!(client.name, "b");
    assert_eq!(client.icon_name, "b-icon");
    assert!(client.is_urgent());
    assert_eq!(client.mapped_state(), WindowState::Iconic);
    assert!(client.supports(102));
    assert_eq!(client.initial_geom(), geom(0, 0, 160, 100));

    client.set_initial_geom(geom(0, 0, 0, 0));
    client.update_properties(&p);
    assert_eq!(client.initial_geom(), Geometry { x: 5, y: 6, height: 70, width: 80 });

    client.set_initial_geom(geom(0, 0, 0, 0));
    p.wm_size_hints = Some(hints(None, None));
    client.update_properties(&p);
    assert_eq!(client.initial_geom(), Geometry { x: 0, y: 0, height: 100, width: 160 });

    client.set_initial_geom(geom(0, 0, 0, 0));
    p.wm_size_hints = None;
    p.wm_hints = None;
    p.wm_protocols = Some(vec![103]);
    client.update_properties(&p);
    assert_eq!(client.initial_geom(), geom(0, 0, 100, 160));
    assert!(!client.is_urgent());
    assert_eq!(client.mapped_state(), WindowState::Normal);
    assert!(!client.supports(103));
}

#[test]
fn ensure_in_bounds_clamps() {
    let mut v = 5;
    ensure_in_bounds(&mut v, 10, 20);
    assert_eq!(v, 10);
    let mut v = 25;
    ensure_in_bounds(&mut v, 10, 20);
    assert_eq!(v, 20);
    let mut v = 15;
    ensure_in_bounds(&mut v, 10, 20);
    assert_eq!(v, 15);
    assert_eq!((WIN_HEIGHT_MIN, WIN_WIDTH_MIN, MIN_ONSCREEN), (100, 100, 20));
}

#[test]
fn client_ring_lookup_by_id() {
    let mut ring = ring_of(&[4, 5, 6, 5]);
    assert_eq!(ring.get_idx(5), Some(1));
    assert_eq!(ring.get_idx(9), None);
    assert!(ring.contains(6));
    assert!(!ring.contains(9));
    assert_eq!(ring.lookup(6).unwrap().id(), 6);
    assert!(ring.lookup(9).is_none());
    ring.lookup_mut(6).unwrap().set_floating();
    assert!(ring.get(2).unwrap().is_floating());
    assert!(ring.lookup_mut(9).is_none());
}

#[test]
fn client_ring_focus_by_id() {
    let mut ring = ring_of(&[4, 5, 6]);
    ring.set_focused_by_winid(6);
    assert!(ring.is_focused(6));
    assert!(!ring.is_focused(4));
    ring.set_focused_by_winid(9);
    assert!(ring.is_focused(6));
    ring.set_focused_by_idx(0);
    assert!(ring.is_focused(4));
    ring.set_focused_by_idx(7);
    assert!(ring.is_focused(4));
    ring.unset_focused();
    assert!(!ring.is_focused(4));
}

#[test]
fn client_ring_remove_by_id() {
    let mut ring = ring_of(&[4, 5, 6, 5]);
    assert_eq!(ring.remove_by_id(5).unwrap().id(), 5);
    assert_eq!(ring.iter().map(|c| c.id()).collect::<Vec<u32>>(), vec![4, 6, 5]);
    assert!(ring.remove_by_id(9).is_none());
    assert_eq!(ring.len(), 3);
}

#[test]
fn xwindow_updates() {
    let mut window = XWindow::from(5);
    assert_eq!(window.id, 5);
    assert_eq!(window.geom, geom(0, 0, 0, 0));
    window.set_geometry(geom(1, 2, 3, 4));
    window.update_width(10);
    window.update_height(-1);
    window.update_pos_x(-5);
    window.update_pos_y(7);
    assert_eq!(window.geom, geom(-4, 9, 13, 3));
    window.set_geometry_conn(None);
    assert_eq!(window.geom, geom(-4, 9, 13, 3));
    window.set_geometry_conn(Some(geom(9, 9, 9, 9)));
    assert_eq!(window.geom, geom(9, 9, 9, 9));
    let mut other = XWindow::from(5);
    other.set_geometry(geom(0, 0, 1, 1));
    assert!(window == other);
    assert!(window != XWindow::from(6));
}
