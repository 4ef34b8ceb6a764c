//! The window manager: one desktop, one screen, and the queue of requests
//! to the server. Every event from the server is handed to it as a plain
//! value, and what it wants of the server is in the queue afterwards.
use vstd::prelude::*;
use crate::desktop::{
    lemma_elsewhere, lemma_goto_sound, lemma_holder, lemma_holder_is, lemma_joined_sound,
    lemma_send_window_to_sound, located, Desktop, DesktopView, Screen,
};
use crate::layout::{hide_all_requests, LayoutType};
use crate::types::{Direction, Geometry, KeyAction, Keybind, Point};
use crate::utils::{bound, find_keybind};
use crate::window::{
    has_id, index_of, kept, lemma_index_of, lemma_kept_same, lemma_views_with_item, ClientView,
};
use crate::workspace::{
    lemma_activate_sound, lemma_add_window_sound, lemma_cycle_focus_sound,
    lemma_del_window_sound, lemma_drag_sound, lemma_same_windows_sound, lemma_toggle_sound,
    WorkspaceView,
};
use crate::x::base::{Atom, InternedAtoms, XWindowID};
use crate::x::event::{ButtonEvent, ConfigureEvent, EnterEvent, KeypressEvent, WindowInfo, XEvent};
use crate::x::proto::{
    button_index_1, button_index_3, config_window_height, config_window_width, config_window_x,
    config_window_y, map_state_viewable, none, notify_mode_normal, notify_mode_ungrab,
};
use crate::x::xserver::{XConn, XRequest};

verus! {

/// What a drag with the pointer does.
#[derive(Debug, Clone, Copy, PartialEq, Eq, Structural)]
pub enum MouseMode {
    /// No button is down.
    Idle,
    /// The window under the pointer moves with it.
    Move,
    /// The window under the pointer changes its size with it.
    Resize,
}

/// What the window manager holds.
#[verifier::ext_equal]
pub struct WindowManagerView {
    /// The requests that wait to be sent, first to last.
    pub requests: Seq<XRequest>,
    pub atoms: InternedAtoms,
    /// The root window, the cursor and the number of the screen, as the
    /// connection has them.
    pub root: XWindowID,
    pub cursor: u32,
    pub current_scr: i32,
    /// The number of the screen that the window manager was set up on.
    pub number: i32,
    pub desktop: DesktopView,
    pub screen: Screen,
    pub mousemode: MouseMode,
    /// The window that is being dragged.
    pub selected: Option<XWindowID>,
    /// Where the pointer was when it was last heard of.
    pub last_mouse: Point,
    pub to_quit: bool,
    pub keybinds: Seq<Keybind>,
}

/// Whether some atom of the list is `atom`.
pub fn has_atom(list: &Vec<Atom>, atom: Atom) -> (b: bool)
    ensures
        b == list@.contains(atom),
{
    let mut i: usize = 0;
    while i < list.len()
        invariant
            forall|j: int| 0 <= j < i ==> list@[j] != atom,
        decreases list@.len() - i,
    {
        if list[i] == atom {
            return true
        }
        i += 1;
    }
    false
}

/// Whether a window of the declared kinds is taken under management: one
/// that declares no kind is, and one that declares itself normal, or a
/// dialog, a splash screen, a utility or a toolbar.
pub open spec fn manages(atoms: InternedAtoms, window_type: Option<Vec<Atom>>) -> bool {
    match window_type {
        Some(kinds) => {
            ||| kinds@.contains(atoms.WM_WINDOW_TYPE_NORMAL)
            ||| kinds@.contains(atoms.WM_WINDOW_TYPE_DIALOG)
            ||| kinds@.contains(atoms.WM_WINDOW_TYPE_SPLASH)
            ||| kinds@.contains(atoms.WM_WINDOW_TYPE_UTILITY)
            ||| kinds@.contains(atoms.WM_WINDOW_TYPE_TOOLBAR)
        },
        None => true,
    }
}

/// Whether a configure request sets any part of the geometry.
pub open spec fn sets_geometry(value_mask: u16) -> bool {
    ||| value_mask & 1 != 0
    ||| value_mask & 2 != 0
    ||| value_mask & 4 != 0
    ||| value_mask & 8 != 0
}

/// The geometry that a configure request asks for: the parts that the
/// client set, and for the others the origin, a width of 100 and a height
/// of 160.
pub open spec fn requested(event: ConfigureEvent) -> Geometry {
    Geometry {
        x: if event.value_mask & 1 != 0 {
            event.geom.x
        } else {
            0
        },
        y: if event.value_mask & 2 != 0 {
            event.geom.y
        } else {
            0
        },
        width: if event.value_mask & 4 != 0 {
            event.geom.width
        } else {
            100
        },
        height: if event.value_mask & 8 != 0 {
            event.geom.height
        } else {
            160
        },
    }
}

impl WindowManagerView {
    /// What holds of the window manager whenever an event is done with:
    /// the desktop is sound.
    pub open spec fn sound(self) -> bool {
        self.desktop.sound()
    }

    /// The rectangle of the screen.
    pub open spec fn geom(self) -> Geometry {
        self.screen.xwindow.geom
    }

    /// The workspace that is on the screen.
    pub open spec fn current(self) -> WorkspaceView {
        self.desktop.current_workspace()
    }

    /// The window manager after more requests were queued.
    pub open spec fn sending(self, sent: Seq<XRequest>) -> Self {
        WindowManagerView { requests: self.requests + sent, ..self }
    }

    /// The window manager with another desktop, after more requests were
    /// queued.
    pub open spec fn with_desktop(self, desktop: DesktopView, sent: Seq<XRequest>) -> Self {
        WindowManagerView { desktop, requests: self.requests + sent, ..self }
    }

    /// The window manager with another workspace in the place of the one
    /// at `at`, after more requests were queued.
    pub open spec fn with_workspace(self, at: int, ws: WorkspaceView, sent: Seq<XRequest>) -> Self {
        self.with_desktop(self.desktop.with_workspace(at, ws), sent)
    }

    /// The window manager with another workspace in the place of the
    /// current one, after more requests were queued.
    pub open spec fn with_current(self, ws: WorkspaceView, sent: Seq<XRequest>) -> Self {
        self.with_workspace(self.desktop.current, ws, sent)
    }

    /// After the first step of a run: the current workspace is shown.
    pub open spec fn start(self) -> Self {
        self.with_current(
            self.current().activate(self.geom()),
            self.current().activate_requests(self.geom()),
        )
    }

    /// After a switch to the workspace at `idx`.
    pub open spec fn goto_workspace(self, idx: int) -> Self {
        self.with_desktop(
            self.desktop.goto(idx, self.geom()),
            self.desktop.goto_requests(idx, self.geom()),
        )
    }

    /// After a switch to the workspace beside the current one.
    pub open spec fn cycle_workspace(self, direction: Direction) -> Self {
        self.goto_workspace(self.desktop.beside(direction))
    }

    /// After the focused window was sent to the workspace at `idx`.
    pub open spec fn send_window_to(self, idx: int) -> Self {
        self.with_desktop(
            self.desktop.send_window_to(idx, self.geom()),
            self.desktop.send_window_to_requests(idx, self.geom()),
        )
    }

    /// After the focus moved one window on in the current workspace.
    pub open spec fn cycle_focus(self, direction: Direction) -> Self {
        self.with_current(
            self.current().cycle_focus(direction),
            self.current().cycle_focus_requests(direction),
        )
    }

    /// After the focused window changed between tiled and floating.
    pub open spec fn toggle_focused_state(self) -> Self {
        self.with_current(
            self.current().toggle_focused_state(self.geom()),
            self.current().toggle_focused_state_requests(self.geom()),
        )
    }

    /// After the window manager was told to leave.
    pub open spec fn quit(self) -> Self {
        WindowManagerView { to_quit: true, ..self }
    }

    /// After the focused window of the current workspace was closed: the
    /// server, or the client, is asked to close it. The client stays with
    /// the workspace until the server reports the window gone.
    pub open spec fn close_window(self) -> Self {
        match self.current().focused() {
            Some(client) => self.sending(seq![XConn::close_request(self.atoms, client)]),
            None => self,
        }
    }

    /// After a window was configured. Where it is the root window, the
    /// screen has its geometry, and the current workspace is hidden and
    /// shown anew on that screen.
    pub open spec fn on_config_notify(self, event: ConfigureEvent) -> Self {
        if event.id == self.screen.xwindow.id {
            let resized = WindowManagerView {
                screen: Screen {
                    xwindow: crate::x::base::XWindow { geom: event.geom, ..self.screen.xwindow },
                    ..self.screen
                },
                ..self
            };
            resized.with_current(
                self.current().activate(event.geom),
                hide_all_requests(self.current().clients) + self.current().activate_requests(
                    event.geom,
                ),
            )
        } else {
            self
        }
    }

    /// After a client asked for another geometry of its window. A tiled
    /// window in a tiling workspace stays where it is: the server is told
    /// its geometry once more, and what the client asked for is kept as
    /// its initial geometry. Any other window gets what the client asked
    /// for. Nothing happens for a window that is not managed, or where
    /// the client set no part of the geometry.
    pub open spec fn on_config_request(self, event: ConfigureEvent) -> Self {
        match located(self.desktop.workspaces, event.id) {
            Some((at, idx)) => {
                let ws = self.desktop.workspaces[at];
                let client = ws.clients[idx];
                if !sets_geometry(event.value_mask) {
                    self
                } else if ws.is_tiling() && client.is_tiled() {
                    self.with_workspace(
                        at,
                        WorkspaceView {
                            clients: ws.clients.update(
                                idx,
                                ClientView { initial_geom: requested(event), ..client },
                            ),
                            ..ws
                        },
                        XConn::geometry_requests(client.id, client.geom),
                    )
                } else {
                    self.with_workspace(
                        at,
                        WorkspaceView {
                            clients: ws.clients.update(idx, client.with_geometry(requested(event))),
                            ..ws
                        },
                        XConn::geometry_requests(client.id, requested(event)),
                    )
                }
            },
            None => self,
        }
    }

    /// After a window asked to be shown, or was found at startup. A window
    /// of a kind that is managed joins the current workspace; any other
    /// is shown and left alone.
    pub open spec fn map_window(self, window: XWindowID, info: WindowInfo) -> Self {
        if manages(self.atoms, info.window_type) {
            let client = self.current().newcomer(window, info.properties, info.geometry);
            self.with_current(
                self.current().add_window(client, self.geom()),
                self.current().add_window_requests(client, self.geom()),
            )
        } else {
            self.sending(seq![XRequest::MapWindow(window)])
        }
    }

    /// After a client asked for its window to be shown. Nothing happens
    /// for a window that is managed already.
    pub open spec fn on_map_request(self, window: XWindowID, info: WindowInfo) -> Self {
        if located(self.desktop.workspaces, window) is None {
            self.map_window(window, info)
        } else {
            self
        }
    }

    /// After a window was hidden or destroyed: its client leaves the
    /// workspace that held it. Nothing happens for a window that is not
    /// managed.
    pub open spec fn unmap_window(self, window: XWindowID) -> Self {
        match located(self.desktop.workspaces, window) {
            Some((at, idx)) => self.with_workspace(
                at,
                self.desktop.workspaces[at].del_window(idx, self.geom()),
                self.desktop.workspaces[at].del_window_requests(idx, self.geom()),
            ),
            None => self,
        }
    }

    /// After the pointer entered a window: a window of the current
    /// workspace gets the focus, unless the crossing came with the
    /// beginning of a grab or in the middle of one.
    pub open spec fn on_enter_notify(self, event: EnterEvent) -> Self {
        if (event.mode == 0 || event.mode == 2) && has_id(self.current().clients, event.id) {
            self.with_current(
                self.current().focus_window(event.id),
                self.current().focus_requests(event.id),
            )
        } else {
            self
        }
    }

    /// After what a key binding sets off was done. A program to run is
    /// left to the caller.
    pub open spec fn run(self, action: KeyAction) -> Self {
        match action {
            KeyAction::GotoWorkspace(idx) => self.goto_workspace(idx as int),
            KeyAction::SendWindowTo(idx) => self.send_window_to(idx as int),
            KeyAction::ToggleFocusedState => self.toggle_focused_state(),
            KeyAction::CycleFocus(direction) => self.cycle_focus(direction),
            KeyAction::CycleWorkspace(direction) => self.cycle_workspace(direction),
            KeyAction::CloseWindow => self.close_window(),
            KeyAction::RunExternal(_) => self,
            KeyAction::Quit => self.quit(),
        }
    }

    /// After a key went down: what the first binding for it sets off is
    /// done.
    pub open spec fn on_key_press(self, event: KeypressEvent) -> Self {
        match bound(self.keybinds, event.mask, event.keysym) {
            Some(binding) => self.run(binding.2),
            None => self,
        }
    }

    /// The program that the caller is to run after a key went down.
    pub open spec fn external(self, event: KeypressEvent) -> Option<&'static [&'static str]> {
        match bound(self.keybinds, event.mask, event.keysym) {
            Some(binding) => match binding.2 {
                KeyAction::RunExternal(args) => Some(args),
                _ => None,
            },
            None => None,
        }
    }

    /// After a pointer button went down over a window: the window is
    /// selected for a drag, the pointer is grabbed, and the window gets
    /// the focus unless it has it. The first button begins a move, the
    /// third a resize. Nothing happens over the root window itself.
    pub open spec fn on_button_press(self, event: ButtonEvent) -> Self {
        if event.child == 0 {
            self
        } else {
            let grabbed = WindowManagerView {
                selected: Some(event.child),
                last_mouse: Point { x: event.root_x as i32, y: event.root_y as i32 },
                mousemode: if event.detail == 1 {
                    MouseMode::Move
                } else if event.detail == 3 {
                    MouseMode::Resize
                } else {
                    self.mousemode
                },
                ..self
            };
            let ws = self.current();
            if ws.focused() matches Some(client) && client.id == event.child {
                grabbed.sending(seq![XRequest::GrabPointer(self.screen.xwindow.id)])
            } else {
                grabbed.with_current(
                    ws.focus_window(event.child),
                    seq![XRequest::GrabPointer(self.screen.xwindow.id)] + ws.focus_requests(
                        event.child,
                    ),
                )
            }
        }
    }

    /// After the pointer button went up: the drag is over.
    pub open spec fn on_button_release(self) -> Self {
        WindowManagerView {
            selected: None,
            mousemode: MouseMode::Idle,
            ..self.sending(seq![XRequest::UngrabPointer])
        }
    }

    /// Whether the pointer's way from where it was to `point` is within
    /// the range of a coordinate.
    pub open spec fn in_reach(self, point: Point) -> bool {
        &&& i32::MIN <= point.x - self.last_mouse.x <= i32::MAX
        &&& i32::MIN <= point.y - self.last_mouse.y <= i32::MAX
    }

    /// After the pointer moved to `point` during a drag: the selected
    /// window gets the focus and is raised, and moves or changes its size
    /// by the pointer's way. Nothing happens where no window is selected.
    pub open spec fn on_motion_notify(self, point: Point) -> Self {
        match self.selected {
            Some(selected) => {
                let ws = self.current();
                let focused = ws.focus_window(selected);
                let raise = match focused.focused() {
                    Some(client) => seq![XRequest::StackAbove(client.id)],
                    None => Seq::empty(),
                };
                let dx = (point.x - self.last_mouse.x) as i32;
                let dy = (point.y - self.last_mouse.y) as i32;
                let followed = WindowManagerView { last_mouse: point, ..self };
                match index_of(focused.clients, selected) {
                    Some(idx) => if !self.in_reach(point) || self.mousemode == MouseMode::Idle {
                        followed.with_current(focused, ws.focus_requests(selected) + raise)
                    } else if self.mousemode == MouseMode::Move {
                        followed.with_current(
                            focused.drag_move(idx, dx, dy, self.geom()),
                            ws.focus_requests(selected) + raise + focused.drag_move_requests(
                                idx,
                                dx,
                                dy,
                                self.geom(),
                            ),
                        )
                    } else {
                        followed.with_current(
                            focused.drag_resize(idx, dx, dy, self.geom()),
                            ws.focus_requests(selected) + raise + focused.drag_resize_requests(
                                idx,
                                dx,
                                dy,
                                self.geom(),
                            ),
                        )
                    },
                    None => followed.with_current(focused, ws.focus_requests(selected) + raise),
                }
            },
            None => self,
        }
    }

    /// After an event was taken.
    pub open spec fn handle_event(self, event: XEvent) -> Self {
        match event {
            XEvent::ConfigureNotify(event) => self.on_config_notify(event),
            XEvent::ConfigureRequest(event) => self.on_config_request(event),
            XEvent::MapRequest(window, _, info) => self.on_map_request(window, info),
            XEvent::UnmapNotify(window) => self.unmap_window(window),
            XEvent::DestroyNotify(window) => self.unmap_window(window),
            XEvent::EnterNotify(event) => self.on_enter_notify(event),
            XEvent::MotionNotify(point) => self.on_motion_notify(point),
            XEvent::KeyPress(event) => self.on_key_press(event),
            XEvent::ButtonPress(event) => self.on_button_press(event),
            XEvent::ButtonRelease => self.on_button_release(),
            _ => self,
        }
    }
}

/// The window manager stays sound when one of its workspaces gives way
/// to a sound workspace that holds no window that the first did not hold.
pub proof fn lemma_with_workspace_sound(
    wm: WindowManagerView,
    at: int,
    ws: WorkspaceView,
    sent: Seq<XRequest>,
)
    requires
        wm.sound(),
        0 <= at < wm.desktop.workspaces.len(),
        ws.sound(),
        kept(ws.clients, wm.desktop.workspaces[at].clients),
    ensures
        wm.with_workspace(at, ws, sent).sound(),
{
    crate::desktop::lemma_with_workspace_sound(wm.desktop, at, ws);
}

/// Giving the focus to a window of the current workspace keeps the window
/// manager sound.
pub proof fn lemma_focus_window_sound(wm: WindowManagerView, window: XWindowID, sent: Seq<XRequest>)
    requires
        wm.sound(),
    ensures
        wm.with_current(wm.current().focus_window(window), sent).sound(),
{
    let ws = wm.current();
    crate::workspace::lemma_focus_window_sound(ws, window);
    lemma_kept_same(ws.clients, ws.clients);
    lemma_with_workspace_sound(wm, wm.desktop.current, ws.focus_window(window), sent);
}

/// What a key binding sets off keeps the window manager sound.
pub proof fn lemma_run_sound(wm: WindowManagerView, action: KeyAction)
    requires
        wm.sound(),
    ensures
        wm.run(action).sound(),
{
    let ws = wm.current();
    match action {
        KeyAction::GotoWorkspace(idx) => {
            lemma_goto_sound(wm.desktop, idx as int, wm.geom());
        },
        KeyAction::SendWindowTo(idx) => {
            lemma_send_window_to_sound(wm.desktop, idx as int, wm.geom());
        },
        KeyAction::ToggleFocusedState => {
            lemma_toggle_sound(ws, wm.geom());
            lemma_with_workspace_sound(
                wm,
                wm.desktop.current,
                ws.toggle_focused_state(wm.geom()),
                ws.toggle_focused_state_requests(wm.geom()),
            );
        },
        KeyAction::CycleFocus(direction) => {
            lemma_cycle_focus_sound(ws, direction);
            lemma_kept_same(ws.clients, ws.clients);
            lemma_with_workspace_sound(
                wm,
                wm.desktop.current,
                ws.cycle_focus(direction),
                ws.cycle_focus_requests(direction),
            );
        },
        KeyAction::CycleWorkspace(direction) => {
            lemma_goto_sound(wm.desktop, wm.desktop.beside(direction), wm.geom());
        },
        _ => {},
    }
}

/// Whatever event the window manager takes, it is sound afterwards: the
/// current workspace is one of the desktop; every tiling workspace has a
/// master exactly when it has a tiled client, and the master is tiled and
/// the first client of the ring; no floating workspace has a master; in
/// every workspace a client has the focus unless there is none; and no
/// window has two clients, in one workspace or in two.
pub proof fn lemma_handle_event_sound(wm: WindowManagerView, event: XEvent)
    requires
        wm.sound(),
    ensures
        wm.handle_event(event).sound(),
{
    let ws = wm.current();
    let current = wm.desktop.current;
    match event {
        XEvent::ConfigureNotify(event) => {
            if event.id == wm.screen.xwindow.id {
                lemma_activate_sound(ws, event.geom);
                crate::desktop::lemma_with_workspace_sound(
                    wm.desktop,
                    current,
                    ws.activate(event.geom),
                );
            }
        },
        XEvent::ConfigureRequest(event) => {
            if let Some((at, idx)) = located(wm.desktop.workspaces, event.id) {
                lemma_holder(wm.desktop.workspaces, event.id);
                let held = wm.desktop.workspaces[at];
                lemma_index_of(held.clients, event.id);
                let client = held.clients[idx];
                let noted = held.clients.update(
                    idx,
                    ClientView { initial_geom: requested(event), ..client },
                );
                let placed = held.clients.update(idx, client.with_geometry(requested(event)));
                lemma_same_windows_sound(held, noted);
                lemma_same_windows_sound(held, placed);
                crate::desktop::lemma_with_workspace_sound(
                    wm.desktop,
                    at,
                    WorkspaceView { clients: noted, ..held },
                );
                crate::desktop::lemma_with_workspace_sound(
                    wm.desktop,
                    at,
                    WorkspaceView { clients: placed, ..held },
                );
            }
        },
        XEvent::MapRequest(window, _, info) => {
            if located(wm.desktop.workspaces, window) is None {
                lemma_map_window_sound(wm, window, info);
            }
        },
        XEvent::UnmapNotify(window) => {
            lemma_unmap_window_sound(wm, window);
        },
        XEvent::DestroyNotify(window) => {
            lemma_unmap_window_sound(wm, window);
        },
        XEvent::EnterNotify(event) => {
            lemma_focus_window_sound(wm, event.id, ws.focus_requests(event.id));
        },
        XEvent::MotionNotify(point) => {
            if let Some(selected) = wm.selected {
                crate::workspace::lemma_focus_window_sound(ws, selected);
                let focused = ws.focus_window(selected);
                lemma_kept_same(ws.clients, ws.clients);
                crate::desktop::lemma_with_workspace_sound(wm.desktop, current, focused);
                if let Some(idx) = index_of(focused.clients, selected) {
                    let dx = (point.x - wm.last_mouse.x) as i32;
                    let dy = (point.y - wm.last_mouse.y) as i32;
                    lemma_drag_sound(focused, idx, dx, dy, wm.geom());
                    crate::desktop::lemma_with_workspace_sound(
                        wm.desktop,
                        current,
                        focused.drag_move(idx, dx, dy, wm.geom()),
                    );
                    crate::desktop::lemma_with_workspace_sound(
                        wm.desktop,
                        current,
                        focused.drag_resize(idx, dx, dy, wm.geom()),
                    );
                }
            }
        },
        XEvent::KeyPress(event) => {
            if let Some(binding) = bound(wm.keybinds, event.mask, event.keysym) {
                lemma_run_sound(wm, binding.2);
            }
        },
        XEvent::ButtonPress(event) => {
            lemma_focus_window_sound(
                wm,
                event.child,
                seq![XRequest::GrabPointer(wm.screen.xwindow.id)] + ws.focus_requests(event.child),
            );
        },
        _ => {},
    }
}

/// Showing the current workspace keeps the window manager sound.
pub proof fn lemma_start_sound(wm: WindowManagerView)
    requires
        wm.sound(),
    ensures
        wm.start().sound(),
{
    let ws = wm.current();
    lemma_activate_sound(ws, wm.geom());
    crate::desktop::lemma_with_workspace_sound(
        wm.desktop,
        wm.desktop.current,
        ws.activate(wm.geom()),
    );
}

/// Taking a window under management that is not managed yet keeps the
/// window manager sound.
pub proof fn lemma_map_window_sound(wm: WindowManagerView, window: XWindowID, info: WindowInfo)
    requires
        wm.sound(),
        located(wm.desktop.workspaces, window) is None,
    ensures
        wm.map_window(window, info).sound(),
{
    let ws = wm.current();
    let client = ws.newcomer(window, info.properties, info.geometry);
    lemma_elsewhere(wm.desktop, window, 0, 0);
    lemma_add_window_sound(ws, client, wm.geom());
    lemma_joined_sound(
        wm.desktop,
        wm.desktop.current,
        ws.add_window(client, wm.geom()),
        window,
    );
}

/// Letting go of a window keeps the window manager sound, and the window
/// is nowhere on the desktop afterwards.
pub proof fn lemma_unmap_window_sound(wm: WindowManagerView, window: XWindowID)
    requires
        wm.sound(),
    ensures
        wm.unmap_window(window).sound(),
        located(wm.unmap_window(window).desktop.workspaces, window) is None,
{
    lemma_holder(wm.desktop.workspaces, window);
    if let Some((at, idx)) = located(wm.desktop.workspaces, window) {
        let held = wm.desktop.workspaces[at];
        lemma_index_of(held.clients, window);
        lemma_del_window_sound(held, idx, wm.geom());
        crate::desktop::lemma_with_workspace_sound(
            wm.desktop,
            at,
            held.del_window(idx, wm.geom()),
        );
        lemma_elsewhere(wm.desktop, window, at, idx);
        let after = wm.unmap_window(window).desktop.workspaces;
        assert forall|k: int| 0 <= k < after.len() implies !has_id(
            (#[trigger] after[k]).clients,
            window,
        ) by {
            if k != at {
                assert(after[k] == wm.desktop.workspaces[k]);
            }
        }
        lemma_holder_is(after, window, None);
    }
}

/// The main manager struct that receives and responds to events.
pub struct WindowManager {
    pub(crate) conn: XConn,
    pub(crate) desktop: Desktop,
    pub(crate) screen: Screen,
    root: i32,
    mousemode: MouseMode,
    selected: Option<XWindowID>,
    last_mouse_x: i32,
    last_mouse_y: i32,
    to_quit: bool,
    keybinds: Vec<Keybind>,
}

impl View for WindowManager {
    type V = WindowManagerView;

    closed spec fn view(&self) -> WindowManagerView {
        WindowManagerView {
            requests: self.conn@,
            atoms: self.conn.atoms,
            root: self.conn.root,
            cursor: self.conn.cursor,
            current_scr: self.conn.current_scr,
            number: self.root,
            desktop: self.desktop@,
            screen: self.screen,
            mousemode: self.mousemode,
            selected: self.selected,
            last_mouse: Point { x: self.last_mouse_x, y: self.last_mouse_y },
            to_quit: self.to_quit,
            keybinds: self.keybinds@,
        }
    }
}

impl WindowManager {
    /// The current index of the desktop is that of a workspace.
    pub open spec fn wf(&self) -> bool {
        self@.desktop.valid()
    }

    /// What the window manager holds at startup: a desktop of empty
    /// workspaces with dynamic tiling, the screen of the root window with
    /// the geometry that the server reported, and the request to show the
    /// cursor over the root window.
    pub open spec fn initial(
        conn: XConn,
        screen_idx: i32,
        root_geom: Option<Geometry>,
        keybinds: Seq<Keybind>,
    ) -> WindowManagerView {
        WindowManagerView {
            requests: conn@ + seq![XRequest::Cursor(conn.root, conn.cursor)],
            atoms: conn.atoms,
            root: conn.root,
            cursor: conn.cursor,
            current_scr: conn.current_scr,
            number: screen_idx,
            desktop: Desktop::initial(LayoutType::DTiled),
            screen: Screen {
                xwindow: crate::x::base::XWindow {
                    id: conn.root,
                    geom: match root_geom {
                        Some(geom) => geom,
                        None => Geometry { x: 0, y: 0, width: 0, height: 0 },
                    },
                },
                idx: screen_idx,
            },
            mousemode: MouseMode::Idle,
            selected: None,
            last_mouse: Point { x: 0, y: 0 },
            to_quit: false,
            keybinds,
        }
    }

    /// Sets the window manager up on a connection. `root_geom` is what the
    /// server said of the geometry of the root window.
    pub fn register(
        conn: XConn,
        screen_idx: i32,
        root_geom: Option<Geometry>,
        keybinds: Vec<Keybind>,
    ) -> (wm: Self)
        ensures
            wm.wf(),
            wm@ == WindowManager::initial(conn, screen_idx, root_geom, keybinds@),
            wm@.sound(),
    {
        let mut xconn = conn;

        let root_id = xconn.get_root_id();

        xconn.set_cursor(root_id);

        let mut screen = Screen::new(screen_idx, root_id);

        screen.xwindow.set_geometry_conn(root_geom);

        Self {
            conn: xconn,
            desktop: Desktop::new(LayoutType::DTiled),
            screen,
            root: screen_idx,
            mousemode: MouseMode::Idle,
            selected: None,
            last_mouse_x: 0,
            last_mouse_y: 0,
            to_quit: false,
            keybinds,
        }
    }

    /// Whether a window that was there before the window manager is taken
    /// over: one that does not ask to be left alone, and can be seen.
    pub fn adopts(override_redirect: bool, map_state: u8) -> (b: bool)
        ensures
            b == (!override_redirect && map_state == 2),
    {
        !(override_redirect || map_state as u32 != map_state_viewable())
    }

    /// Hands over the requests that wait, first to last, and leaves the
    /// queue empty.
    pub fn take_requests(&mut self) -> (sent: Vec<XRequest>)
        requires
            old(self).wf(),
        ensures
            final(self).wf(),
            sent@ == old(self)@.requests,
            final(self)@ == (WindowManagerView { requests: Seq::empty(), ..old(self)@ }),
    {
        self.conn.take_requests()
    }

    /// Whether the window manager was told to leave.
    pub fn should_quit(&self) -> (b: bool)
        ensures
            b == self@.to_quit,
    {
        self.to_quit
    }

    /// The desktop.
    pub fn desktop(&self) -> (desktop: &Desktop)
        ensures
            desktop@ == self@.desktop,
    {
        &self.desktop
    }

    /// The screen.
    pub fn screen(&self) -> (screen: &Screen)
        ensures
            *screen == self@.screen,
    {
        &self.screen
    }

    /// What a drag with the pointer does at present.
    pub fn mousemode(&self) -> (mode: MouseMode)
        ensures
            mode == self@.mousemode,
    {
        self.mousemode
    }

    /// The window that is being dragged.
    pub fn selected(&self) -> (selected: Option<XWindowID>)
        ensures
            selected == self@.selected,
    {
        self.selected
    }

    /// Shows the current workspace: the first step of a run.
    pub fn start(&mut self)
        requires
            old(self).wf(),
        ensures
            final(self).wf(),
            final(self)@ == old(self)@.start(),
            old(self)@.sound() ==> final(self)@.sound(),
    {
        proof {
            if self@.sound() {
                lemma_start_sound(self@);
            }
        }
        self.desktop.current_mut().activate(&mut self.conn, &self.screen);
    }

    /// Go to workspace `idx`.
    pub fn goto_workspace(&mut self, idx: usize)
        requires
            old(self).wf(),
        ensures
            final(self).wf(),
            final(self)@ == old(self)@.goto_workspace(idx as int),
    {
        self.desktop.goto(&mut self.conn, &self.screen, idx);
    }

    /// Goes to the workspace beside the current one.
    pub fn cycle_workspace(&mut self, direction: Direction)
        requires
            old(self).wf(),
        ensures
            final(self).wf(),
            final(self)@ == old(self)@.cycle_workspace(direction),
    {
        self.desktop.cycle_workspace(&mut self.conn, &self.screen, direction);
    }

    /// Sends the focused window to workspace `idx`.
    pub fn send_window_to(&mut self, idx: usize)
        requires
            old(self).wf(),
        ensures
            final(self).wf(),
            final(self)@ == old(self)@.send_window_to(idx as int),
    {
        self.desktop.send_window_to(&mut self.conn, &self.screen, idx);
    }

    /// Cycles the focus in the given direction.
    pub fn cycle_focus(&mut self, direction: Direction)
        requires
            old(self).wf(),
        ensures
            final(self).wf(),
            final(self)@ == old(self)@.cycle_focus(direction),
    {
        self.desktop.current_mut().cycle_focus(&mut self.conn, direction);
    }

    /// Toggles the focused window into floating or tiled.
    pub fn toggle_focused_state(&mut self)
        requires
            old(self).wf(),
        ensures
            final(self).wf(),
            final(self)@ == old(self)@.toggle_focused_state(),
    {
        self.desktop.current_mut().toggle_focused_state(&mut self.conn, &self.screen)
    }

    /// Tells the window manager to leave. It leaves when the event at
    /// hand is done with.
    pub fn quit(&mut self)
        ensures
            final(self)@ == old(self)@.quit(),
    {
        self.to_quit = true;
    }

    /// Closes the focused window of the current workspace.
    pub fn close_window(&mut self)
        requires
            old(self).wf(),
        ensures
            final(self).wf(),
            final(self)@ == old(self)@.close_window(),
    {
        let ws = self.desktop.current();
        proof {
            ws.windows.lemma_valid();
        }
        if let Some(window) = ws.windows.focused() {
            self.conn.destroy_window(window);
        }
    }

    /// Takes the report that a window was configured. Only the root
    /// window counts: the screen has changed.
    pub fn on_config_notify(&mut self, event: &ConfigureEvent)
        requires
            old(self).wf(),
        ensures
            final(self).wf(),
            final(self)@ == old(self)@.on_config_notify(*event),
    {
        if event.id == self.screen.xwindow.id {
            self.screen.xwindow.geom = event.geom;

            let ws = self.desktop.current_mut();
            ws.deactivate(&mut self.conn);
            ws.activate(&mut self.conn, &self.screen);
        }
    }

    /// The geometry that a configure request asks for.
    fn requested(event: &ConfigureEvent) -> (r: (Geometry, bool))
        ensures
            r.0 == requested(*event),
            r.1 == sets_geometry(event.value_mask),
    {
        let mut geom = Geometry::from((0, 0, 100, 160));
        let mut config_window_geom = false;

        if config_window_y() as u16 & event.value_mask != 0 {
            config_window_geom = true;
            geom.y = event.geom.y;
        }
        if config_window_x() as u16 & event.value_mask != 0 {
            config_window_geom = true;
            geom.x = event.geom.x;
        }
        if config_window_width() as u16 & event.value_mask != 0 {
            config_window_geom = true;
            geom.width = event.geom.width;
        }
        if config_window_height() as u16 & event.value_mask != 0 {
            config_window_geom = true;
            geom.height = event.geom.height;
        }
        proof {
            let mask = event.value_mask;
            assert(1u16 & mask == mask & 1u16) by (bit_vector);
            assert(2u16 & mask == mask & 2u16) by (bit_vector);
            assert(4u16 & mask == mask & 4u16) by (bit_vector);
            assert(8u16 & mask == mask & 8u16) by (bit_vector);
        }
        (geom, config_window_geom)
    }

    /// Takes a client's request for another geometry of its window.
    pub fn on_config_request(&mut self, event: &ConfigureEvent)
        requires
            old(self).wf(),
        ensures
            final(self).wf(),
            final(self)@ == old(self)@.on_config_request(*event),
    {
        let (geom, config_window_geom) = Self::requested(event);
        proof {
            crate::desktop::lemma_holder(self@.desktop.workspaces, event.id);
            if let Some((at, idx)) = located(self@.desktop.workspaces, event.id) {
                lemma_index_of(self@.desktop.workspaces[at].clients, event.id);
            }
        }
        if let Some((ws, idx)) = self.desktop.retrieve_mut(event.id) {
            let is_tiling = ws.is_tiling();
            let ghost ring = ws.windows@;
            let ghost before = ws@;
            assert(idx < ring.items.len());
            if let Some(window) = ws.windows.get_mut(idx) {
                if config_window_geom {
                    // if we are tiling the window
                    if is_tiling && window.is_tiled() {
                        // reject the request
                        // send back unchanged geometry
                        window.update_geometry(&mut self.conn);
                        // however, set initial geom for when floating
                        window.set_initial_geom(geom);
                    } else {
                        window.set_and_update_geometry(&mut self.conn, geom);
                    }
                }
            }
            proof {
                lemma_views_with_item(ring, idx as int, ws.windows@.items[idx as int]);
                assert(ws@.clients =~= before.clients.update(idx as int, ws@.clients[idx as int]));
                if !config_window_geom {
                    assert(ws@ == before);
                }
            }
        }
    }

    /// Takes a client's request for its window to be shown. A window that
    /// the desktop holds already is left where it is.
    pub fn on_map_request(&mut self, window: XWindowID, info: &WindowInfo)
        requires
            old(self).wf(),
        ensures
            final(self).wf(),
            final(self)@ == old(self)@.on_map_request(window, *info),
            old(self)@.sound() ==> final(self)@.sound(),
    {
        if self.desktop.locate(window).is_none() {
            self.map_window(window, info);
        }
    }

    /// Takes a window under management, or shows it and leaves it alone
    /// where it is of a kind that is not managed. The desktop stays sound
    /// where it did not hold the window before; it does not look for it.
    pub fn map_window(&mut self, window: XWindowID, info: &WindowInfo)
        requires
            old(self).wf(),
        ensures
            final(self).wf(),
            final(self)@ == old(self)@.map_window(window, *info),
            old(self)@.sound() && located(old(self)@.desktop.workspaces, window) is None
                ==> final(self)@.sound(),
    {
        proof {
            if self@.sound() && located(self@.desktop.workspaces, window) is None {
                lemma_map_window_sound(self@, window, *info);
            }
        }
        if let Some(window_type) = &info.window_type {
            if !(has_atom(window_type, self.conn.atoms.WM_WINDOW_TYPE_NORMAL) || has_atom(
                window_type,
                self.conn.atoms.WM_WINDOW_TYPE_DIALOG,
            ) || has_atom(window_type, self.conn.atoms.WM_WINDOW_TYPE_SPLASH) || has_atom(
                window_type,
                self.conn.atoms.WM_WINDOW_TYPE_UTILITY,
            ) || has_atom(window_type, self.conn.atoms.WM_WINDOW_TYPE_TOOLBAR)) {
                self.conn.map_window(window);
                return
            }
        }
        self.desktop.current_mut().add_window(
            &mut self.conn,
            &self.screen,
            window,
            &info.properties,
            info.geometry,
        );
    }

    /// Takes the report that a window was hidden.
    pub fn on_unmap_notify(&mut self, window: XWindowID)
        requires
            old(self).wf(),
        ensures
            final(self).wf(),
            final(self)@ == old(self)@.unmap_window(window),
            old(self)@.sound() ==> final(self)@.sound() && located(
                final(self)@.desktop.workspaces,
                window,
            ) is None,
    {
        self.unmap_window(window);
    }

    /// Takes the report that a window was destroyed.
    pub fn on_destroy_notify(&mut self, window: XWindowID)
        requires
            old(self).wf(),
        ensures
            final(self).wf(),
            final(self)@ == old(self)@.unmap_window(window),
            old(self)@.sound() ==> final(self)@.sound() && located(
                final(self)@.desktop.workspaces,
                window,
            ) is None,
    {
        self.unmap_window(window);
    }

    /// Lets go of a window that was hidden or destroyed.
    pub fn unmap_window(&mut self, window: XWindowID)
        requires
            old(self).wf(),
        ensures
            final(self).wf(),
            final(self)@ == old(self)@.unmap_window(window),
            old(self)@.sound() ==> final(self)@.sound() && located(
                final(self)@.desktop.workspaces,
                window,
            ) is None,
    {
        proof {
            if self@.sound() {
                lemma_unmap_window_sound(self@, window);
            }
        }
        if let Some((at, idx)) = self.desktop.locate(window) {
            if let Some(ws) = self.desktop.get_mut(at) {
                ws.del_window(&mut self.conn, &self.screen, window, idx);
            }
        }
    }

    /// Takes the report that the pointer entered a window: the focus
    /// follows the pointer.
    pub fn on_enter_notify(&mut self, event: &EnterEvent)
        requires
            old(self).wf(),
        ensures
            final(self).wf(),
            final(self)@ == old(self)@.on_enter_notify(*event),
    {
        if !(event.mode as u32 == notify_mode_normal() || event.mode as u32
            == notify_mode_ungrab()) {
            return
        }
        if self.desktop.current().contains(event.id).is_some() {
            self.desktop.current_mut().focus_window(&mut self.conn, &self.screen, event.id)
        }
    }

    /// Does what a key binding sets off, and hands over the program that
    /// is to be run, if the binding is for one.
    pub fn run(&mut self, action: KeyAction) -> (external: Option<&'static [&'static str]>)
        requires
            old(self).wf(),
        ensures
            final(self).wf(),
            final(self)@ == old(self)@.run(action),
            external == (match action {
                KeyAction::RunExternal(args) => Some(args),
                _ => None,
            }),
    {
        match action {
            KeyAction::GotoWorkspace(idx) => {
                self.goto_workspace(idx);
                None
            },
            KeyAction::SendWindowTo(idx) => {
                self.send_window_to(idx);
                None
            },
            KeyAction::ToggleFocusedState => {
                self.toggle_focused_state();
                None
            },
            KeyAction::CycleFocus(direction) => {
                self.cycle_focus(direction);
                None
            },
            KeyAction::CycleWorkspace(direction) => {
                self.cycle_workspace(direction);
                None
            },
            KeyAction::CloseWindow => {
                self.close_window();
                None
            },
            KeyAction::RunExternal(args) => Some(args),
            KeyAction::Quit => {
                self.quit();
                None
            },
        }
    }

    /// Does what the first binding for a key sets off, and hands over the
    /// program that is to be run, if the binding is for one.
    pub fn on_key_press(&mut self, event: &KeypressEvent) -> (external: Option<
        &'static [&'static str],
    >)
        requires
            old(self).wf(),
        ensures
            final(self).wf(),
            final(self)@ == old(self)@.on_key_press(*event),
            external == old(self)@.external(*event),
    {
        if let Some((_, _, action)) = find_keybind(&self.keybinds, event.mask, event.keysym) {
            return self.run(action)
        }
        None
    }

    /// Takes the report that a pointer button went down: a drag begins.
    pub fn on_button_press(&mut self, event: &ButtonEvent)
        requires
            old(self).wf(),
        ensures
            final(self).wf(),
            final(self)@ == old(self)@.on_button_press(*event),
    {
        if event.child == none() {
            return
        }
        self.selected = Some(event.child);

        self.conn.grab_pointer(self.screen.xwindow.id);

        self.last_mouse_x = event.root_x as i32;
        self.last_mouse_y = event.root_y as i32;

        let ws = self.desktop.current();
        proof {
            ws.windows.lemma_valid();
        }
        if !ws.windows.is_focused(event.child) {
            self.desktop.current_mut().focus_window(&mut self.conn, &self.screen, event.child);
        }
        if event.detail as u32 == button_index_1() {
            self.mousemode = MouseMode::Move;
        } else if event.detail as u32 == button_index_3() {
            self.mousemode = MouseMode::Resize;
        }
    }

    /// Takes the report that the pointer button went up: the drag is over.
    pub fn on_button_release(&mut self)
        ensures
            final(self)@ == old(self)@.on_button_release(),
    {
        self.selected = None;
        self.mousemode = MouseMode::Idle;

        self.conn.ungrab_pointer();
    }

    /// Takes the report that the pointer moved during a drag.
    pub fn on_motion_notify(&mut self, point: Point)
        requires
            old(self).wf(),
        ensures
            final(self).wf(),
            final(self)@ == old(self)@.on_motion_notify(point),
    {
        if let Some(selected) = self.selected {
            let dx = point.x as i64 - self.last_mouse_x as i64;
            let dy = point.y as i64 - self.last_mouse_y as i64;
            let in_reach = i32::MIN as i64 <= dx && dx <= i32::MAX as i64 && i32::MIN as i64 <= dy
                && dy <= i32::MAX as i64;

            self.last_mouse_x = point.x;
            self.last_mouse_y = point.y;

            let ws = self.desktop.current_mut();
            // focus the window
            ws.focus_window(&mut self.conn, &self.screen, selected);
            proof {
                ws.windows.lemma_valid();
            }
            // stack the window on top
            if let Some(focused) = ws.windows.focused() {
                self.conn.stack_above(focused.id());
            }
            if let Some(idx) = ws.windows.get_idx(selected) {
                if in_reach {
                    match self.mousemode {
                        MouseMode::Idle => {},
                        MouseMode::Move => {
                            ws.drag_move(&mut self.conn, &self.screen, idx, dx as i32, dy as i32);
                        },
                        MouseMode::Resize => {
                            ws.drag_resize(&mut self.conn, &self.screen, idx, dx as i32, dy as i32);
                        },
                    }
                }
            }
        }
    }

    /// Takes an event, and hands over the program that is to be run, if
    /// the event is a key press that is bound to one.
    pub fn handle_event(&mut self, event: &XEvent) -> (external: Option<&'static [&'static str]>)
        requires
            old(self).wf(),
        ensures
            final(self).wf(),
            final(self)@ == old(self)@.handle_event(*event),
            external == (match *event {
                XEvent::KeyPress(key) => old(self)@.external(key),
                _ => None,
            }),
            old(self)@.sound() ==> final(self)@.sound(),
    {
        proof {
            if self@.sound() {
                lemma_handle_event_sound(self@, *event);
            }
        }
        match event {
            XEvent::ConfigureNotify(event) => {
                self.on_config_notify(event);
                None
            },
            XEvent::ConfigureRequest(event) => {
                self.on_config_request(event);
                None
            },
            XEvent::MapRequest(window, _, info) => {
                self.on_map_request(*window, info);
                None
            },
            XEvent::UnmapNotify(window) => {
                self.on_unmap_notify(*window);
                None
            },
            XEvent::DestroyNotify(window) => {
                self.on_destroy_notify(*window);
                None
            },
            XEvent::EnterNotify(event) => {
                self.on_enter_notify(event);
                None
            },
            XEvent::MotionNotify(point) => {
                self.on_motion_notify(*point);
                None
            },
            XEvent::KeyPress(event) => self.on_key_press(event),
            XEvent::ButtonPress(event) => {
                self.on_button_press(event);
                None
            },
            XEvent::ButtonRelease => {
                self.on_button_release();
                None
            },
            _ => None,
        }
    }
}

} // verus!
