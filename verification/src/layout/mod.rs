//! The ways in which a workspace arranges its windows, and what they have
//! in common: how a workspace is shown and hidden, and how the focus moves.
use vstd::prelude::*;
use crate::config::{BORDER_FOCUSED, BORDER_UNFOCUSED};
use crate::desktop::Screen;
use crate::types::{BorderStyle, Direction};
use crate::window::{has_id, index_of, lemma_index_of, ClientView};
use crate::workspace::{Workspace, WorkspaceView};
use crate::x::base::XWindowID;
use crate::x::xserver::{XConn, XRequest};

pub mod dtiled;
pub mod floating;

verus! {

/// The layouts that a workspace can have.
#[non_exhaustive]
#[derive(Debug, Clone, Copy, PartialEq, Eq, Structural)]
pub enum LayoutType {
    /// Every window floats.
    Floating,
    /// Dynamic tiling: one master and a stack beside it.
    DTiled,
    /// Manual tiling.
    MTiled,
}

/// The request that takes the look of the focused window from a client.
pub open spec fn unfocus_requests(focused: Option<ClientView>) -> Seq<XRequest> {
    match focused {
        Some(client) => seq![XRequest::BorderColor(client.id, BORDER_UNFOCUSED)],
        None => Seq::empty(),
    }
}

/// The requests that raise a window and give it the keyboard and the look
/// of the focused window. The window's events are off meanwhile.
pub open spec fn raise_requests(window: XWindowID) -> Seq<XRequest> {
    seq![
        XRequest::DisableEvents(window),
        XRequest::StackAbove(window),
        XRequest::InputFocus(window),
        XRequest::BorderColor(window, BORDER_FOCUSED),
        XRequest::ChildEvents(window),
    ]
}

/// The requests that show a client's window at the client's geometry. The
/// window's events are off meanwhile.
pub open spec fn show_requests(client: ClientView) -> Seq<XRequest> {
    seq![
        XRequest::DisableEvents(client.id),
        XRequest::Resize(client.id, client.geom.width, client.geom.height),
        XRequest::Move(client.id, client.geom.x, client.geom.y),
        XRequest::MapWindow(client.id),
        XRequest::ChildEvents(client.id),
    ]
}

/// The requests that hide a window. The window's events are off meanwhile.
pub open spec fn hide_requests(window: XWindowID) -> Seq<XRequest> {
    seq![
        XRequest::DisableEvents(window),
        XRequest::UnmapWindow(window),
        XRequest::ChildEvents(window),
    ]
}

/// The requests that show every client, the last of the ring first.
pub open spec fn show_all_requests(clients: Seq<ClientView>) -> Seq<XRequest>
    decreases clients.len(),
{
    if clients.len() == 0 {
        Seq::empty()
    } else {
        show_all_requests(clients.drop_first()) + show_requests(clients.first())
    }
}

/// The requests that hide every client, the first of the ring first.
pub open spec fn hide_all_requests(clients: Seq<ClientView>) -> Seq<XRequest>
    decreases clients.len(),
{
    if clients.len() == 0 {
        Seq::empty()
    } else {
        hide_all_requests(clients.drop_last()) + hide_requests(clients.last().id)
    }
}

/// The requests that give every window the geometry of its client, the
/// first of the ring first.
pub open spec fn update_requests(clients: Seq<ClientView>) -> Seq<XRequest>
    decreases clients.len(),
{
    if clients.len() == 0 {
        Seq::empty()
    } else {
        update_requests(clients.drop_last()) + XConn::geometry_requests(
            clients.last().id,
            clients.last().geom,
        )
    }
}

impl WorkspaceView {
    /// The workspace with the focus on the first client with the given
    /// handle; unchanged where no client has it.
    pub open spec fn focus_window(self, window: XWindowID) -> Self {
        match index_of(self.clients, window) {
            Some(idx) => WorkspaceView { focus: Some(idx), ..self },
            None => self,
        }
    }

    /// What the server is asked when the focus goes to a window: the
    /// client that had the focus loses the look of it, and the window is
    /// raised. Nothing is asked where no client has the handle.
    pub open spec fn focus_requests(self, window: XWindowID) -> Seq<XRequest> {
        if has_id(self.clients, window) {
            unfocus_requests(self.focused()) + raise_requests(window)
        } else {
            Seq::empty()
        }
    }

    /// The window that gets the focus when none other is named: under the
    /// floating layout the first of the ring, else the master.
    pub open spec fn main_window(self) -> Option<XWindowID> {
        if self.layout == LayoutType::Floating {
            if self.clients.len() > 0 {
                Some(self.clients[0].id)
            } else {
                None
            }
        } else {
            self.master
        }
    }

    /// The workspace after it was shown: the focus is on its main window.
    pub open spec fn shown(self) -> Self {
        match self.main_window() {
            Some(window) => self.focus_window(window),
            None => self,
        }
    }

    /// What the server is asked when the workspace is shown: the focus
    /// goes to the main window, then every window is shown, the last of
    /// the ring first.
    pub open spec fn show_requests(self) -> Seq<XRequest> {
        (match self.main_window() {
            Some(window) => self.focus_requests(window),
            None => Seq::empty(),
        }) + show_all_requests(self.clients)
    }

    /// The workspace after the focus moved one client on.
    pub open spec fn cycle_focus(self, direction: Direction) -> Self {
        self.with_ring(self.ring().cycle_focus(direction))
    }

    /// What the server is asked when the focus moves one client on.
    pub open spec fn cycle_focus_requests(self, direction: Direction) -> Seq<XRequest> {
        unfocus_requests(self.focused()) + (match self.cycle_focus(direction).focused() {
            Some(client) => raise_requests(client.id),
            None => Seq::empty(),
        })
    }
}

/// Raises a window of the workspace and gives it the keyboard and the look
/// of the focused window. Nothing is asked for a window that the workspace
/// does not hold.
pub fn window_stack_and_focus(ws: &Workspace, conn: &mut XConn, window: XWindowID)
    ensures
        final(conn).extends(
            old(conn),
            if has_id(ws@.clients, window) {
                raise_requests(window)
            } else {
                Seq::empty()
            },
        ),
{
    if let Some(win) = ws.windows.lookup(window) {
        proof {
            lemma_index_of(ws@.clients, window);
        }
        // disable events
        conn.disable_events(window);

        conn.stack_above(window);
        conn.set_input_focus(window);
        win.set_border(conn, BorderStyle::Focused);

        // re-enable events
        conn.child_events(window);
    }
}

/// Shows a workspace: gives the focus to its main window and maps every
/// window, the last of the ring first.
pub fn activate(conn: &mut XConn, ws: &mut Workspace, screen: &Screen)
    ensures
        final(ws)@ == old(ws)@.shown(),
        final(conn).extends(old(conn), old(ws)@.show_requests()),
{
    if ws.windows.is_empty() {
        return
    }
    // focus the main window in the workspace
    // if floating, focus the first window
    // else (should be tiled), focus the master window

    if let LayoutType::Floating = ws.layout {
        if let Some(first) = ws.windows.get(0) {
            let id = first.id();
            floating::window_focus(conn, ws, id);
        }
    } else {
        if let Some(win) = ws.master {
            floating::window_focus(conn, ws, win);
        }
    }

    let ghost clients = ws@.clients;
    let ghost before = *conn;
    let mut i: usize = ws.windows.len();
    while i > 0
        invariant
            i <= clients.len(),
            ws@.clients == clients,
            conn.extends(&before, show_all_requests(clients.subrange(i as int, clients.len() as int))),
        decreases i,
    {
        i -= 1;
        if let Some(window) = ws.windows.get(i) {
            proof {
                let rest = clients.subrange(i as int, clients.len() as int);
                assert(rest.drop_first() =~= clients.subrange(i + 1, clients.len() as int));
                assert(rest.first() == window@);
            }
            // disable events
            conn.disable_events(window.id());
            // update window geometry in the x server
            window.update_geometry(conn);
            // map window
            conn.map_window(window.id());
            // re-enable events
            conn.child_events(window.id());
        }
    }
    assert(clients.subrange(0, clients.len() as int) =~= clients);
}

/// The base deactivate function.
///
/// Unmaps every window, the first of the ring first.
pub fn deactivate(conn: &mut XConn, ws: &mut Workspace)
    ensures
        final(ws)@ == old(ws)@,
        final(conn).extends(old(conn), hide_all_requests(old(ws)@.clients)),
{
    let ghost clients = ws@.clients;
    let ghost before = *conn;
    let mut i: usize = 0;
    while i < ws.windows.len()
        invariant
            i <= clients.len(),
            ws@.clients == clients,
            conn.extends(&before, hide_all_requests(clients.subrange(0, i as int))),
        decreases clients.len() - i,
    {
        if let Some(window) = ws.windows.get(i) {
            proof {
                let upto = clients.subrange(0, i + 1);
                assert(upto.drop_last() =~= clients.subrange(0, i as int));
                assert(upto.last() == window@);
            }
            conn.disable_events(window.id());

            conn.unmap_window(window.id());

            conn.child_events(window.id());
        }
        i += 1;
    }
    assert(clients.subrange(0, clients.len() as int) =~= clients);
}

/// Moves the focus of the workspace one client on.
pub fn cycle_focus(conn: &mut XConn, ws: &mut Workspace, direction: Direction)
    ensures
        final(ws)@ == old(ws)@.cycle_focus(direction),
        final(conn).extends(old(conn), old(ws)@.cycle_focus_requests(direction)),
{
    proof {
        ws.windows.lemma_valid();
    }
    //change currently focused border colour to unfocused
    if let Some(win) = ws.windows.focused() {
        win.set_border(conn, BorderStyle::Unfocused);
    }
    //internally, cycle focus

    ws.windows.cycle_focus(direction);

    // change focus colours
    let focused = match ws.windows.focused() {
        Some(win) => Some(win.id()),
        None => None,
    };
    if let Some(focused) = focused {
        proof {
            ws.windows.lemma_valid();
            let f = ws@.focus->0;
            if index_of(ws@.clients, focused) is None {
                lemma_index_of(ws@.clients, focused);
                assert(ws@.clients[f].id != focused);
            }
        }
        window_stack_and_focus(ws, conn, focused);
    }
}

} // verus!
