//! The queue of requests to the X server.
use vstd::prelude::*;
use crate::types::Geometry;
use crate::window::{Client, ClientView};
use crate::x::base::{InternedAtoms, XWindowID};

verus! {

/// One request to the server.
#[derive(Debug, Clone, Copy, PartialEq, Eq, Structural)]
pub enum XRequest {
    /// Stop reporting events of the window.
    DisableEvents(XWindowID),
    /// Report the events that a managed window is watched for: the
    /// pointer entering it, and changes of its structure.
    ChildEvents(XWindowID),
    /// Paint the window's border in the given colour.
    BorderColor(XWindowID, u32),
    /// Make the window's border so many pixels wide.
    BorderWidth(XWindowID, u32),
    /// Give the window the size `(width, height)`.
    Resize(XWindowID, i32, i32),
    /// Put the window's top-left corner at `(x, y)`.
    Move(XWindowID, i32, i32),
    /// Put the window above its siblings.
    StackAbove(XWindowID),
    /// Show the window.
    MapWindow(XWindowID),
    /// Hide the window.
    UnmapWindow(XWindowID),
    /// Direct the keyboard to the window.
    InputFocus(XWindowID),
    /// Ask the window's owner to close it.
    DeleteWindow(XWindowID),
    /// Destroy the window.
    DestroyWindow(XWindowID),
    /// Make `.1` the parent of `.0`.
    Reparent(XWindowID, XWindowID),
    /// Show the window manager's cursor over the window.
    Cursor(XWindowID, u32),
    /// Route the pointer's events to the window for the length of a drag.
    GrabPointer(XWindowID),
    /// End the routing that `GrabPointer` began.
    UngrabPointer,
}

/// The outgoing half of the connection: what the window manager knows of
/// the server, and the requests that are waiting to be sent.
pub struct XConn {
    /// The requests in the order in which they were made.
    pub queue: Vec<XRequest>,
    pub atoms: InternedAtoms,
    pub root: XWindowID,
    pub cursor: u32,
    pub current_scr: i32,
}

impl View for XConn {
    type V = Seq<XRequest>;

    /// The requests that wait, first to last.
    open spec fn view(&self) -> Seq<XRequest> {
        self.queue@
    }
}

impl XConn {
    /// Two connections that differ at most in what they have queued.
    pub open spec fn same_server(&self, other: &XConn) -> bool {
        &&& self.atoms == other.atoms
        &&& self.root == other.root
        &&& self.cursor == other.cursor
        &&& self.current_scr == other.current_scr
    }

    /// `self` after `sent` was queued behind what `before` held.
    pub open spec fn extends(&self, before: &XConn, sent: Seq<XRequest>) -> bool {
        &&& self.same_server(before)
        &&& self@ =~= before@ + sent
    }

    /// A connection with nothing queued.
    pub fn new(atoms: InternedAtoms, root: XWindowID, idx: i32) -> (conn: Self)
        ensures
            conn@ == Seq::<XRequest>::empty(),
            conn.atoms == atoms,
            conn.root == root,
            conn.cursor == 0,
            conn.current_scr == idx,
    {
        Self { queue: Vec::new(), atoms, root, cursor: 0, current_scr: idx }
    }

    /// The root window of the current screen.
    pub fn get_root_id(&self) -> (id: XWindowID)
        ensures
            id == self.root,
    {
        self.root
    }

    /// Sets the screen of the current root.
    pub fn set_root_scr(&mut self, scr: i32)
        ensures
            final(self)@ == old(self)@,
            final(self).atoms == old(self).atoms,
            final(self).root == old(self).root,
            final(self).cursor == old(self).cursor,
            final(self).current_scr == scr,
    {
        self.current_scr = scr;
    }

    /// Hands over the requests that wait, first to last, and leaves the
    /// queue empty.
    pub fn take_requests(&mut self) -> (sent: Vec<XRequest>)
        ensures
            sent@ == old(self)@,
            final(self)@ == Seq::<XRequest>::empty(),
            final(self).same_server(old(self)),
    {
        let mut sent: Vec<XRequest> = Vec::new();
        std::mem::swap(&mut self.queue, &mut sent);
        sent
    }

    /// The number of requests that wait.
    pub fn pending(&self) -> (n: usize)
        ensures
            n == self@.len(),
    {
        self.queue.len()
    }

    /// Queues one request.
    pub fn send(&mut self, request: XRequest)
        ensures
            final(self).extends(old(self), seq![request]),
    {
        self.queue.push(request);
    }

    pub fn disable_events(&mut self, window: XWindowID)
        ensures
            final(self).extends(old(self), seq![XRequest::DisableEvents(window)]),
    {
        self.send(XRequest::DisableEvents(window))
    }

    pub fn child_events(&mut self, window: XWindowID)
        ensures
            final(self).extends(old(self), seq![XRequest::ChildEvents(window)]),
    {
        self.send(XRequest::ChildEvents(window))
    }

    pub fn set_border_color(&mut self, window: XWindowID, color: u32)
        ensures
            final(self).extends(old(self), seq![XRequest::BorderColor(window, color)]),
    {
        self.send(XRequest::BorderColor(window, color))
    }

    pub fn set_border_width(&mut self, window: XWindowID, width: u32)
        ensures
            final(self).extends(old(self), seq![XRequest::BorderWidth(window, width)]),
    {
        self.send(XRequest::BorderWidth(window, width))
    }

    pub fn stack_above(&mut self, window: XWindowID)
        ensures
            final(self).extends(old(self), seq![XRequest::StackAbove(window)]),
    {
        self.send(XRequest::StackAbove(window))
    }

    pub fn reparent_window(&mut self, window: XWindowID, parent: XWindowID)
        ensures
            final(self).extends(old(self), seq![XRequest::Reparent(window, parent)]),
    {
        self.send(XRequest::Reparent(window, parent))
    }

    pub fn map_window(&mut self, window_id: XWindowID)
        ensures
            final(self).extends(old(self), seq![XRequest::MapWindow(window_id)]),
    {
        self.send(XRequest::MapWindow(window_id))
    }

    pub fn unmap_window(&mut self, window_id: XWindowID)
        ensures
            final(self).extends(old(self), seq![XRequest::UnmapWindow(window_id)]),
    {
        self.send(XRequest::UnmapWindow(window_id))
    }

    pub fn set_input_focus(&mut self, window_id: XWindowID)
        ensures
            final(self).extends(old(self), seq![XRequest::InputFocus(window_id)]),
    {
        self.send(XRequest::InputFocus(window_id))
    }

    /// The two requests that give a window a geometry: its size first,
    /// then its place.
    pub open spec fn geometry_requests(window_id: XWindowID, geom: Geometry) -> Seq<XRequest> {
        seq![
            XRequest::Resize(window_id, geom.width, geom.height),
            XRequest::Move(window_id, geom.x, geom.y),
        ]
    }

    pub fn set_geometry(&mut self, window_id: XWindowID, geom: Geometry)
        ensures
            final(self).extends(old(self), Self::geometry_requests(window_id, geom)),
    {
        self.send(XRequest::Resize(window_id, geom.width, geom.height));
        self.send(XRequest::Move(window_id, geom.x, geom.y));
    }

    /// Sets the window manager's cursor on a window.
    pub fn set_cursor(&mut self, window: XWindowID)
        ensures
            final(self).extends(old(self), seq![XRequest::Cursor(window, old(self).cursor)]),
    {
        self.send(XRequest::Cursor(window, self.cursor))
    }

    pub fn grab_pointer(&mut self, window_id: XWindowID)
        ensures
            final(self).extends(old(self), seq![XRequest::GrabPointer(window_id)]),
    {
        self.send(XRequest::GrabPointer(window_id))
    }

    pub fn ungrab_pointer(&mut self)
        ensures
            final(self).extends(old(self), seq![XRequest::UngrabPointer]),
    {
        self.send(XRequest::UngrabPointer)
    }

    /// The request that closes a client's window: the client is asked to
    /// close it where it takes part in that protocol, else the window is
    /// destroyed.
    pub open spec fn close_request(atoms: InternedAtoms, window: ClientView) -> XRequest {
        if window.protocols.contains(atoms.WM_DELETE_WINDOW) {
            XRequest::DeleteWindow(window.id)
        } else {
            XRequest::DestroyWindow(window.id)
        }
    }

    /// Closes a client's window.
    pub fn destroy_window(&mut self, window: &Client)
        ensures
            final(self).extends(old(self), seq![Self::close_request(old(self).atoms, window@)]),
    {
        if window.supports(self.atoms.WM_DELETE_WINDOW) {
            self.send(XRequest::DeleteWindow(window.id()));
        } else {
            self.send(XRequest::DestroyWindow(window.id()));
        }
    }
}

} // verus!
