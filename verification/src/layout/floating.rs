//! The floating layout: every window stays where its client put it.
use vstd::prelude::*;
use crate::config::BORDER_WIDTH;
use crate::desktop::Screen;
use crate::types::{BorderStyle, Direction, Geometry, WinLayoutState, XWinProperties};
use crate::window::{lemma_views_insert, lemma_views_remove, Client, ClientView};
use crate::workspace::{Workspace, WorkspaceView};
use crate::x::base::XWindowID;
use crate::x::xserver::{XConn, XRequest};

verus! {

/// The requests that bring a new window on the screen: it gets its border,
/// is shown above the others, and is watched from then on.
pub open spec fn welcome_requests(window: XWindowID) -> Seq<XRequest> {
    seq![
        XRequest::BorderWidth(window, BORDER_WIDTH),
        XRequest::MapWindow(window),
        XRequest::StackAbove(window),
        XRequest::ChildEvents(window),
    ]
}

/// The requests that take a window that is gone off the screen.
pub open spec fn farewell_requests(window: XWindowID) -> Seq<XRequest> {
    seq![XRequest::DisableEvents(window), XRequest::UnmapWindow(window)]
}

impl ClientView {
    /// The record of a new window with the given properties: its
    /// protocols are those that the properties name.
    pub open spec fn admitted(
        id: XWindowID,
        properties: XWinProperties,
        layout: WinLayoutState,
    ) -> ClientView {
        ClientView::fresh(id, properties, layout).supporting(properties.wm_protocols)
    }
}

impl WorkspaceView {
    /// The workspace after a floating window joined it: the window is the
    /// first of the ring and has the focus.
    pub open spec fn floating_add_window(self, client: ClientView) -> Self {
        self.with_ring(self.ring().push(client)).focus_window(client.id)
    }

    /// What the server is asked when a floating window joins.
    pub open spec fn floating_add_window_requests(self, client: ClientView) -> Seq<XRequest> {
        welcome_requests(client.id) + self.with_ring(self.ring().push(client)).focus_requests(
            client.id,
        )
    }

    /// The workspace after the client at `idx` left it. Where the first
    /// client left, the client that is first now gets the focus.
    pub open spec fn floating_del_window(self, idx: int) -> Self {
        let left = self.with_ring(self.ring().remove(idx));
        if idx == 0 && left.clients.len() > 0 {
            left.focus_window(left.clients[0].id)
        } else {
            left
        }
    }

    /// What the server is asked when the client at `idx` leaves.
    pub open spec fn floating_del_window_requests(self, idx: int) -> Seq<XRequest> {
        let left = self.with_ring(self.ring().remove(idx));
        farewell_requests(self.clients[idx].id) + if idx == 0 && left.clients.len() > 0 {
            left.focus_requests(left.clients[0].id)
        } else {
            Seq::empty()
        }
    }
}

pub fn activate(conn: &mut XConn, ws: &mut Workspace, screen: &Screen)
    ensures
        final(ws)@ == old(ws)@.shown(),
        final(conn).extends(old(conn), old(ws)@.show_requests()),
{
    super::activate(conn, ws, screen)
}

pub fn deactivate(conn: &mut XConn, ws: &mut Workspace)
    ensures
        final(ws)@ == old(ws)@,
        final(conn).extends(old(conn), super::hide_all_requests(old(ws)@.clients)),
{
    super::deactivate(conn, ws)
}

/// Takes a new window into the workspace as a floating window, shows it
/// and gives it the focus. `geometry` is what the server said of the
/// window's geometry; where it could not tell, the window is taken to have
/// the fallback geometry.
pub fn add_window(
    conn: &mut XConn,
    ws: &mut Workspace,
    screen: &Screen,
    window_id: XWindowID,
    properties: &XWinProperties,
    geometry: Option<Geometry>,
)
    ensures
        final(ws)@ == old(ws)@.floating_add_window(
            ClientView::admitted(window_id, *properties, WinLayoutState::Floating).with_geometry(
                Geometry::or_fallback(geometry),
            ),
        ),
        final(conn).extends(
            old(conn),
            old(ws)@.floating_add_window_requests(
                ClientView::admitted(
                    window_id,
                    *properties,
                    WinLayoutState::Floating,
                ).with_geometry(Geometry::or_fallback(geometry)),
            ),
        ),
{
    let mut window = Client::floating(window_id, properties);

    window.set_supported(&properties.wm_protocols);
    window.set_geometry(Geometry::or_default(geometry));

    conn.set_border_width(window.id(), BORDER_WIDTH);
    conn.map_window(window.id());
    conn.stack_above(window.id());
    conn.child_events(window.id());

    proof {
        lemma_views_insert(ws.windows@, 0, window);
    }
    ws.windows.push(window);
    window_focus(conn, ws, window_id);
}

/// Takes the client at `idx`, which is the client of the window
/// `window_id`, out of the workspace, and hides its window.
pub fn del_window(
    conn: &mut XConn,
    ws: &mut Workspace,
    _screen: &Screen,
    window_id: XWindowID,
    idx: usize,
) -> (window: Client)
    requires
        idx < old(ws)@.clients.len(),
        old(ws)@.clients[idx as int].id == window_id,
    ensures
        window@ == old(ws)@.clients[idx as int],
        final(ws)@ == old(ws)@.floating_del_window(idx as int),
        final(conn).extends(old(conn), old(ws)@.floating_del_window_requests(idx as int)),
{
    proof {
        lemma_views_remove(ws.windows@, idx as int);
    }
    let window = ws.windows.remove(idx).unwrap();

    conn.disable_events(window_id);

    conn.unmap_window(window_id);

    if idx == 0 {
        let next = match ws.windows.get(0) {
            Some(next) => Some(next.id()),
            None => None,
        };
        if let Some(next) = next {
            window_focus(conn, ws, next);
        }
    }
    window
}

/// Gives the focus to a window of the workspace. The client that had the
/// focus loses the look of it. Nothing happens where the workspace does
/// not hold the window.
pub fn window_focus(conn: &mut XConn, ws: &mut Workspace, window: XWindowID)
    ensures
        final(ws)@ == old(ws)@.focus_window(window),
        final(conn).extends(old(conn), old(ws)@.focus_requests(window)),
{
    if let Some(idx) = ws.windows.get_idx(window) {
        proof {
            ws.windows.lemma_valid();
        }
        if let Some(focused) = ws.windows.focused() {
            focused.set_border(conn, BorderStyle::Unfocused);
        }
        // internally focus

        ws.windows.set_focused_by_idx(idx);

        // tell x to focus
        super::window_stack_and_focus(ws, conn, window)
    }
}

pub fn cycle_focus(conn: &mut XConn, ws: &mut Workspace, direction: Direction)
    ensures
        final(ws)@ == old(ws)@.cycle_focus(direction),
        final(conn).extends(old(conn), old(ws)@.cycle_focus_requests(direction)),
{
    super::cycle_focus(conn, ws, direction)
}

/// Nothing is to be laid out where every window floats.
pub fn relayout(_conn: &mut XConn, _ws: &mut Workspace, _screen: &Screen)
    ensures
        final(_ws)@ == old(_ws)@,
        final(_conn).extends(old(_conn), Seq::empty()),
{
}

} // verus!
