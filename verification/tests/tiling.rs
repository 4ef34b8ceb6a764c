use raccoonwm::config::{BORDER_FOCUSED, BORDER_UNFOCUSED, BORDER_WIDTH};
use raccoonwm::desktop::Screen;
use raccoonwm::layout::dtiled;
use raccoonwm::layout::LayoutType;
use raccoonwm::types::{Direction, Geometry, WindowState, XWinProperties};
use raccoonwm::workspace::Workspace;
use raccoonwm::x::base::InternedAtoms;
use raccoonwm::x::xserver::{XConn, XRequest};

fn atoms() -> InternedAtoms {
    InternedAtoms {
        SUPPORTED: 101,
        WM_DELETE_WINDOW: 102,
        WM_TAKE_FOCUS: 103,
        WM_PROTOCOLS: 104,
        WM_WINDOW_TYPE_DESKTOP: 105,
        WM_WINDOW_TYPE_DOCK: 106,
        WM_WINDOW_TYPE_TOOLBAR: 107,
        WM_WINDOW_TYPE_MENU: 108,
        WM_WINDOW_TYPE_UTILITY: 109,
        WM_WINDOW_TYPE_SPLASH: 110,
        WM_WINDOW_TYPE_DIALOG: 111,
        WM_WINDOW_TYPE_DROPDOWN_MENU: 112,
        WM_WINDOW_TYPE_NOTIFICATION: 113,
        WM_WINDOW_TYPE_NORMAL: 114,
        WM_STATE: 115,
        WM_STATE_MODAL: 116,
        WM_STATE_STICKY: 117,
        WM_STATE_MAXIMIZED_VERT: 118,
        WM_STATE_MAXIMIZED_HORZ: 119,
        WM_STATE_SHADED: 120,
        WM_STATE_SKIP_TASKBAR: 121,
        WM_STATE_SKIP_PAGER: 122,
        WM_STATE_HIDDEN: 123,
        WM_STATE_FULLSCREEN: 124,
        WM_STATE_ABOVE: 125,
        WM_STATE_BELOW: 126,
        WM_STATE_DEMANDS_ATTENTION: 127,
    }
}

const ROOT: u32 = 99;

fn conn() -> XConn {
    XConn::new(atoms(), ROOT, 0)
}

fn props(name: &str) -> XWinProperties {
    XWinProperties {
        wm_name: name.to_string(),
        wm_icon_name: format!("{}-icon", name),
        wm_size_hints: None,
        wm_hints: None,
        wm_class: (String::new(), String::new()),
        wm_protocols: None,
        wm_state: WindowState::Normal,
    }
}

fn geom(x: i32, y: i32, width: i32, height: i32) -> Geometry {
    Geometry { x, y, width, height }
}

fn screen() -> Screen {
    let mut screen = Screen::new(0, ROOT);
    screen.xwindow.set_geometry(geom(0, 0, 1920, 1080));
    screen
}

fn tiling() -> Workspace {
    Workspace::with_layout(LayoutType::DTiled)
}

fn add(ws: &mut Workspace, id: u32) -> Vec<XRequest> {
    let mut conn = conn();
    ws.add_window(&mut conn, &screen(), id, &props("w"), None);
    conn.take_requests()
}

fn ids(ws: &Workspace) -> Vec<u32> {
    ws.windows.iter().map(|c| c.id()).collect()
}

fn geoms(ws: &Workspace) -> Vec<Geometry> {
    ws.windows.iter().map(|c| c.geometry()).collect()
}

fn master_invariant(ws: &Workspace) {
    assert_eq!(ws.master().is_some(), ws.tiled_count() >= 1);
    if let Some(master) = ws.master() {
        let first = ws.windows.get(0).unwrap();
        assert_eq!(first.id(), master);
        assert!(first.is_tiled());
    }
}

#[test]
fn single_master_fills_screen() {
    let mut ws = tiling();
    add(&mut ws, 1);
    assert_eq!(ws.master(), Some(1));
    assert_eq!(geoms(&ws), vec![geom(0, 0, 1920 - 2 * 2, 1080 - 2 * 2)]);
    assert_eq!(BORDER_WIDTH, 2);
    assert_eq!(geoms(&ws), vec![geom(0, 0, 1916, 1076)]);
}

#[test]
fn master_and_slave_split_the_screen() {
    let mut ws = tiling();
    add(&mut ws, 1);
    add(&mut ws, 2);
    assert_eq!(ids(&ws), vec![1, 2]);
    assert_eq!(ws.master(), Some(1));
    assert_eq!(geoms(&ws), vec![geom(0, 0, 956, 1076), geom(960, 0, 956, 1076)]);
    let g = geoms(&ws);
    assert_eq!(g[0].height, g[1].height);
    assert_eq!(g[1].x, g[0].x + g[0].width + 2 * BORDER_WIDTH as i32);
}

#[test]
fn three_tiled_windows() {
    let mut ws = tiling();
    add(&mut ws, 1);
    add(&mut ws, 2);
    add(&mut ws, 3);
    assert_eq!(ids(&ws), vec![1, 2, 3]);
    assert_eq!(ws.master(), Some(1));
    assert_eq!(
        geoms(&ws),
        vec![geom(0, 0, 956, 1076), geom(960, 0, 956, 536), geom(960, 540, 956, 536)]
    );
}

#[test]
fn four_tiled_windows_share_the_right_half() {
    let mut ws = tiling();
    for id in 1..=4 {
        add(&mut ws, id);
    }
    assert_eq!(
        geoms(&ws),
        vec![
            geom(0, 0, 956, 1076),
            geom(960, 0, 956, 356),
            geom(960, 360, 956, 356),
            geom(960, 720, 956, 356),
        ]
    );
}

#[test]
fn tiles_follow_the_origin_of_the_screen() {
    let mut ws = tiling();
    let mut scr = Screen::new(0, ROOT);
    scr.xwindow.set_geometry(geom(100, 50, 800, 600));
    let mut c = conn();
    for id in 1..=3 {
        ws.add_window(&mut c, &scr, id, &props("w"), None);
    }
    assert_eq!(
        geoms(&ws),
        vec![geom(100, 50, 396, 596), geom(500, 50, 396, 296), geom(500, 350, 396, 296)]
    );
}

#[test]
fn removing_master_reassigns() {
    let mut ws = tiling();
    add(&mut ws, 1);
    add(&mut ws, 2);
    add(&mut ws, 3);
    let mut c = conn();
    let removed = ws.del_window(&mut c, &screen(), 1, 0);
    assert_eq!(removed.id(), 1);
    assert_eq!(ids(&ws), vec![2, 3]);
    assert_eq!(ws.master(), Some(2));
    assert_eq!(geoms(&ws), vec![geom(0, 0, 956, 1076), geom(960, 0, 956, 1076)]);
    assert!(ws.windows.is_focused(2));
    master_invariant(&ws);
}

#[test]
fn removing_a_slave_focuses_the_master() {
    let mut ws = tiling();
    add(&mut ws, 1);
    add(&mut ws, 2);
    add(&mut ws, 3);
    assert!(ws.windows.is_focused(3));
    let mut c = conn();
    let removed = ws.del_window(&mut c, &screen(), 3, 2);
    assert_eq!(removed.id(), 3);
    assert_eq!(ws.master(), Some(1));
    assert!(ws.windows.is_focused(1));
    assert_eq!(geoms(&ws), vec![geom(0, 0, 956, 1076), geom(960, 0, 956, 1076)]);
    assert_eq!(
        c.take_requests(),
        vec![
            XRequest::DisableEvents(3),
            XRequest::UnmapWindow(3),
            XRequest::DisableEvents(1),
            XRequest::StackAbove(1),
            XRequest::InputFocus(1),
            XRequest::BorderColor(1, BORDER_FOCUSED),
            XRequest::ChildEvents(1),
            XRequest::Resize(1, 956, 1076),
            XRequest::Move(1, 0, 0),
            XRequest::Resize(2, 956, 1076),
            XRequest::Move(2, 960, 0),
        ]
    );
}

#[test]
fn removing_the_last_window_unsets_the_master() {
    let mut ws = tiling();
    add(&mut ws, 1);
    let mut c = conn();
    ws.del_window(&mut c, &screen(), 1, 0);
    assert!(ws.is_empty());
    assert_eq!(ws.master(), None);
    assert_eq!(ws.windows.focused_idx(), None);
    assert_eq!(c.take_requests(), vec![XRequest::DisableEvents(1), XRequest::UnmapWindow(1)]);
}

#[test]
fn toggle_floating_unsets_master_when_last_tiled() {
    let mut ws = tiling();
    add(&mut ws, 1);
    assert_eq!(ws.master(), Some(1));
    let mut c = conn();
    ws.toggle_focused_state(&mut c, &screen());
    assert_eq!(ws.master(), None);
    assert!(ws.windows.get(0).unwrap().is_floating());
    assert_eq!(ws.tiled_count(), 0);
    assert_eq!(ws.floating_count(), 1);
    assert_eq!(geoms(&ws), vec![geom(0, 0, 1916, 1076)]);
    assert_eq!(
        c.take_requests(),
        vec![XRequest::StackAbove(1), XRequest::Resize(1, 1916, 1076), XRequest::Move(1, 0, 0)]
    );
}

#[test]
fn toggle_back_to_tiled_makes_the_window_master_again() {
    let mut ws = tiling();
    add(&mut ws, 1);
    let mut c = conn();
    ws.toggle_focused_state(&mut c, &screen());
    ws.toggle_focused_state(&mut c, &screen());
    assert_eq!(ws.master(), Some(1));
    assert!(ws.windows.get(0).unwrap().is_tiled());
    master_invariant(&ws);
}

#[test]
fn toggling_the_master_promotes_the_first_tiled_window() {
    let mut ws = tiling();
    add(&mut ws, 1);
    add(&mut ws, 2);
    add(&mut ws, 3);
    let mut c = conn();
    ws.focus_window(&mut c, &screen(), 1);
    ws.toggle_focused_state(&mut c, &screen());
    assert_eq!(ws.master(), Some(2));
    assert_eq!(ids(&ws), vec![2, 1, 3]);
    assert!(ws.windows.get(1).unwrap().is_floating());
    assert_eq!(
        geoms(&ws),
        vec![geom(0, 0, 956, 1076), geom(0, 0, 956, 1076), geom(960, 0, 956, 1076)]
    );
    master_invariant(&ws);
}

#[test]
fn toggling_the_master_skips_floating_windows() {
    let mut ws = tiling();
    add(&mut ws, 1);
    add(&mut ws, 2);
    add(&mut ws, 3);
    let mut c = conn();
    ws.focus_window(&mut c, &screen(), 2);
    ws.toggle_focused_state(&mut c, &screen());
    assert!(ws.windows.get(1).unwrap().is_floating());
    ws.focus_window(&mut c, &screen(), 1);
    ws.toggle_focused_state(&mut c, &screen());
    assert_eq!(ws.master(), Some(3));
    assert_eq!(ids(&ws), vec![3, 2, 1]);
    assert_eq!(ws.tiled_count(), 1);
    assert_eq!(ws.windows.get(0).unwrap().geometry(), geom(0, 0, 1916, 1076));
    master_invariant(&ws);
}

#[test]
fn toggle_without_a_focused_window_does_nothing() {
    let mut ws = tiling();
    add(&mut ws, 1);
    ws.windows.unset_focused();
    let mut c = conn();
    ws.toggle_focused_state(&mut c, &screen());
    assert!(ws.windows.get(0).unwrap().is_tiled());
    assert_eq!(ws.master(), Some(1));
    assert_eq!(c.take_requests(), vec![]);
}

#[test]
fn master_invariant_holds_through_adds_removes_and_toggles() {
    let mut ws = tiling();
    let mut c = conn();
    master_invariant(&ws);
    for id in 1..=5 {
        ws.add_window(&mut c, &screen(), id, &props("w"), None);
        master_invariant(&ws);
    }
    ws.focus_window(&mut c, &screen(), 3);
    ws.toggle_focused_state(&mut c, &screen());
    master_invariant(&ws);
    ws.focus_window(&mut c, &screen(), 1);
    ws.toggle_focused_state(&mut c, &screen());
    master_invariant(&ws);
    ws.del_window(&mut c, &screen(), ids(&ws)[0], 0);
    master_invariant(&ws);
    ws.focus_window(&mut c, &screen(), 1);
    ws.toggle_focused_state(&mut c, &screen());
    master_invariant(&ws);
    while !ws.is_empty() {
        let id = ids(&ws)[0];
        ws.del_window(&mut c, &screen(), id, 0);
        master_invariant(&ws);
    }
    assert_eq!(ws.master(), None);
}

#[test]
fn relayout_twice_gives_the_same_geometries() {
    let mut ws = tiling();
    for id in 1..=4 {
        add(&mut ws, id);
    }
    let mut scr = Screen::new(0, ROOT);
    scr.xwindow.set_geometry(geom(0, 0, 1280, 1024));
    let mut first = conn();
    ws.relayout(&mut first, &scr);
    let once = geoms(&ws);
    let mut second = conn();
    ws.relayout(&mut second, &scr);
    assert_eq!(geoms(&ws), once);
    assert_eq!(first.take_requests(), second.take_requests());
    assert_eq!(once[0], geom(0, 0, 636, 1020));
    assert_eq!(once[1], geom(640, 0, 636, 337));
}

#[test]
fn relayout_tells_the_server_every_geometry() {
    let mut ws = tiling();
    add(&mut ws, 1);
    add(&mut ws, 2);
    let mut c = conn();
    ws.relayout(&mut c, &screen());
    assert_eq!(
        c.take_requests(),
        vec![
            XRequest::Resize(1, 956, 1076),
            XRequest::Move(1, 0, 0),
            XRequest::Resize(2, 956, 1076),
            XRequest::Move(2, 960, 0),
        ]
    );
}

#[test]
fn tiled_windows_do_not_overlap() {
    let border = 2 * BORDER_WIDTH as i32;
    for n in 2..=7u32 {
        let mut ws = tiling();
        for id in 1..=n {
            add(&mut ws, id);
        }
        let g = geoms(&ws);
        for a in 0..g.len() {
            for b in a + 1..g.len() {
                let apart_x = g[a].x + g[a].width + border <= g[b].x
                    || g[b].x + g[b].width + border <= g[a].x;
                let apart_y = g[a].y + g[a].height + border <= g[b].y
                    || g[b].y + g[b].height + border <= g[a].y;
                assert!(apart_x || apart_y);
            }
        }
        for b in 1..g.len() {
            assert_eq!(g[b].x, g[0].x + g[0].width + border);
        }
        for b in 2..g.len() {
            assert_eq!(g[b].y, g[b - 1].y + g[b - 1].height + border);
        }
    }
}

#[test]
fn floating_windows_keep_their_geometry_in_a_relayout() {
    let mut ws = tiling();
    add(&mut ws, 1);
    add(&mut ws, 2);
    add(&mut ws, 3);
    let mut c = conn();
    ws.focus_window(&mut c, &screen(), 2);
    ws.toggle_focused_state(&mut c, &screen());
    assert_eq!(
        geoms(&ws),
        vec![geom(0, 0, 956, 1076), geom(960, 0, 956, 536), geom(960, 0, 956, 1076)]
    );
}

#[test]
fn a_screen_that_cannot_be_tiled_moves_no_window() {
    let mut ws = tiling();
    add(&mut ws, 1);
    add(&mut ws, 2);
    let before = geoms(&ws);
    let mut scr = Screen::new(0, ROOT);
    scr.xwindow.set_geometry(geom(0, 0, -1, 1080));
    let mut c = conn();
    ws.relayout(&mut c, &scr);
    assert_eq!(geoms(&ws), before);
    scr.xwindow.set_geometry(geom(i32::MAX, 0, 100, 100));
    ws.relayout(&mut c, &scr);
    assert_eq!(geoms(&ws), before);
}

#[test]
fn adding_the_first_window_asks_for_it_to_be_shown_and_focused() {
    let mut ws = tiling();
    let requests = add(&mut ws, 1);
    assert_eq!(
        requests,
        vec![
            XRequest::Resize(1, 1916, 1076),
            XRequest::Move(1, 0, 0),
            XRequest::BorderWidth(1, BORDER_WIDTH),
            XRequest::MapWindow(1),
            XRequest::StackAbove(1),
            XRequest::ChildEvents(1),
            XRequest::BorderColor(1, BORDER_UNFOCUSED),
            XRequest::DisableEvents(1),
            XRequest::StackAbove(1),
            XRequest::InputFocus(1),
            XRequest::BorderColor(1, BORDER_FOCUSED),
            XRequest::ChildEvents(1),
        ]
    );
    assert!(ws.windows.is_focused(1));
}

#[test]
fn adding_a_second_window_moves_the_focus_to_it() {
    let mut ws = tiling();
    add(&mut ws, 1);
    let requests = add(&mut ws, 2);
    assert_eq!(
        requests,
        vec![
            XRequest::Resize(1, 956, 1076),
            XRequest::Move(1, 0, 0),
            XRequest::Resize(2, 956, 1076),
            XRequest::Move(2, 960, 0),
            XRequest::BorderWidth(2, BORDER_WIDTH),
            XRequest::MapWindow(2),
            XRequest::StackAbove(2),
            XRequest::ChildEvents(2),
            XRequest::BorderColor(1, BORDER_UNFOCUSED),
            XRequest::DisableEvents(2),
            XRequest::StackAbove(2),
            XRequest::InputFocus(2),
            XRequest::BorderColor(2, BORDER_FOCUSED),
            XRequest::ChildEvents(2),
        ]
    );
    assert!(ws.windows.is_focused(2));
}

#[test]
fn focus_window_ignores_a_window_that_is_not_there() {
    let mut ws = tiling();
    add(&mut ws, 1);
    let mut c = conn();
    ws.focus_window(&mut c, &screen(), 42);
    assert!(ws.windows.is_focused(1));
    assert_eq!(c.take_requests(), vec![]);
}

#[test]
fn cycle_focus_moves_the_look_of_the_focus() {
    let mut ws = tiling();
    add(&mut ws, 1);
    add(&mut ws, 2);
    add(&mut ws, 3);
    let mut c = conn();
    ws.cycle_focus(&mut c, Direction::Forward);
    assert!(ws.windows.is_focused(1));
    assert_eq!(
        c.take_requests(),
        vec![
            XRequest::BorderColor(3, BORDER_UNFOCUSED),
            XRequest::DisableEvents(1),
            XRequest::StackAbove(1),
            XRequest::InputFocus(1),
            XRequest::BorderColor(1, BORDER_FOCUSED),
            XRequest::ChildEvents(1),
        ]
    );
    ws.cycle_focus(&mut c, Direction::Backward);
    assert!(ws.windows.is_focused(3));
}

#[test]
fn activate_lays_out_focuses_the_master_and_maps_in_reverse() {
    let mut ws = tiling();
    add(&mut ws, 1);
    add(&mut ws, 2);
    let mut scr = Screen::new(0, ROOT);
    scr.xwindow.set_geometry(geom(0, 0, 1000, 500));
    let mut c = conn();
    ws.activate(&mut c, &scr);
    assert!(ws.windows.is_focused(1));
    assert_eq!(geoms(&ws), vec![geom(0, 0, 496, 496), geom(500, 0, 496, 496)]);
    assert_eq!(
        c.take_requests(),
        vec![
            XRequest::BorderColor(2, BORDER_UNFOCUSED),
            XRequest::DisableEvents(1),
            XRequest::StackAbove(1),
            XRequest::InputFocus(1),
            XRequest::BorderColor(1, BORDER_FOCUSED),
            XRequest::ChildEvents(1),
            XRequest::DisableEvents(2),
            XRequest::Resize(2, 496, 496),
            XRequest::Move(2, 500, 0),
            XRequest::MapWindow(2),
            XRequest::ChildEvents(2),
            XRequest::DisableEvents(1),
            XRequest::Resize(1, 496, 496),
            XRequest::Move(1, 0, 0),
            XRequest::MapWindow(1),
            XRequest::ChildEvents(1),
        ]
    );
}

#[test]
fn activate_of_an_empty_workspace_asks_nothing() {
    let mut ws = tiling();
    let mut c = conn();
    ws.activate(&mut c, &screen());
    assert_eq!(c.take_requests(), vec![]);
}

#[test]
fn deactivate_unmaps_every_window() {
    let mut ws = tiling();
    add(&mut ws, 1);
    add(&mut ws, 2);
    let mut c = conn();
    ws.deactivate(&mut c);
    assert_eq!(
        c.take_requests(),
        vec![
            XRequest::DisableEvents(1),
            XRequest::UnmapWindow(1),
            XRequest::ChildEvents(1),
            XRequest::DisableEvents(2),
            XRequest::UnmapWindow(2),
            XRequest::ChildEvents(2),
        ]
    );
}

#[test]
fn take_focused_window_hands_the_client_over() {
    let mut ws = tiling();
    add(&mut ws, 1);
    add(&mut ws, 2);
    let mut c = conn();
    let taken = ws.take_focused_window(&mut c, &screen()).unwrap();
    assert_eq!(taken.id(), 2);
    assert_eq!(ids(&ws), vec![1]);
    assert_eq!(geoms(&ws), vec![geom(0, 0, 1916, 1076)]);
    ws.windows.unset_focused();
    assert!(ws.take_focused_window(&mut c, &screen()).is_none());
}

#[test]
fn layout_functions_work_on_any_workspace() {
    let mut ws = tiling();
    let mut c = conn();
    dtiled::add_window(&mut c, &mut ws, &screen(), 7, &props("w"));
    dtiled::relayout(&mut c, &mut ws, &screen());
    dtiled::window_focus(&mut c, &mut ws, 7);
    assert_eq!(ws.master(), Some(7));
    let removed = dtiled::del_window(&mut c, &mut ws, &screen(), 7, 0);
    assert_eq!(removed.id(), 7);
    dtiled::activate(&mut c, &mut ws, &screen());
    dtiled::deactivate(&mut c, &mut ws);
    assert!(ws.is_empty());
}

#[test]
fn a_removed_window_is_gone() {
    let mut ws = tiling();
    add(&mut ws, 1);
    add(&mut ws, 2);
    add(&mut ws, 3);
    let mut c = conn();
    ws.del_window(&mut c, &screen(), 2, 1);
    assert_eq!(ws.contains(2), None);
    assert_eq!(ids(&ws), vec![1, 3]);
    ws.del_window(&mut c, &screen(), 1, 0);
    assert_eq!(ws.contains(1), None);
    assert_eq!(ids(&ws), vec![3]);
}


#[test]
fn the_smallest_screen_with_room_gives_every_window_a_size() {
    let mut scr = Screen::new(0, ROOT);
    scr.xwindow.set_geometry(geom(-7, 3, 10, 15));
    let mut ws = tiling();
    let mut c = conn();
    for id in 1..=4u32 {
        ws.add_window(&mut c, &scr, id, &props("w"), None);
    }
    assert_eq!(
        geoms(&ws),
        vec![geom(-7, 3, 1, 11), geom(-2, 3, 1, 1), geom(-2, 8, 1, 1), geom(-2, 13, 1, 1)]
    );
    let g = geoms(&ws);
    for a in 0..g.len() {
        assert!(g[a].width > 0 && g[a].height > 0);
        for b in a + 1..g.len() {
            let meet_x = g[a].x < g[b].x + g[b].width && g[b].x < g[a].x + g[a].width;
            let meet_y = g[a].y < g[b].y + g[b].height && g[b].y < g[a].y + g[a].height;
            assert!(!(meet_x && meet_y));
        }
    }
}

#[test]
fn the_second_window_stands_beside_the_first() {
    let mut scr = Screen::new(0, ROOT);
    scr.xwindow.set_geometry(geom(40, 30, 801, 601));
    let mut ws = tiling();
    let mut c = conn();
    ws.add_window(&mut c, &scr, 1, &props("a"), None);
    assert_eq!(geoms(&ws), vec![geom(40, 30, 797, 597)]);
    ws.add_window(&mut c, &scr, 2, &props("b"), None);
    let g = geoms(&ws);
    assert_eq!(ws.master(), Some(1));
    assert_eq!(g, vec![geom(40, 30, 396, 597), geom(440, 30, 396, 597)]);
    assert_eq!(g[1].height, 601 - 2 * BORDER_WIDTH as i32);
    assert_eq!(g[1].y, g[0].y);
    assert_eq!(g[1].width, g[0].width);
}
