//! A workspace: the windows on one virtual desktop, the master among them,
//! and the layout that arranges them.
use vstd::prelude::*;
use crate::config::BORDER_WIDTH;
use crate::desktop::Screen;
use crate::layout::dtiled::{
    arranged, first_tiled, framed, inner, lemma_arranged_pair, lemma_first_tiled,
    lemma_first_tiled_is, lemma_rank, lemma_slots_apart, lemma_slots_roomy, lemma_tile_arranged,
    lemma_tiled_count_insert, lemma_tiled_count_remove, lemma_tiled_count_same,
    lemma_tiled_count_swap, lemma_tiled_count_update, lemma_tiled_count_zero,
    lemma_tiled_idempotent, lemma_tiled_keeps, overlap, rank, roomy, tileable, tiled, tiled_count,
};
use crate::layout::{dtiled, floating, hide_all_requests, update_requests, LayoutType};
use crate::ring::{Ring, RingView};
use crate::types::{Direction, Geometry, WinLayoutState, XWinProperties};
use crate::window::{
    distinct, has_id, index_of, joined, kept, lemma_distinct_insert, lemma_distinct_remove,
    lemma_distinct_swap, lemma_has_id_at, lemma_index_of, lemma_kept_joined, lemma_kept_same,
    lemma_kept_trans, lemma_views_insert, lemma_views_move_front, lemma_views_with_item,
    lemma_within_gone, lemma_within_trans, views, Client, ClientRing, ClientView,
};
use crate::x::base::XWindowID;
use crate::x::xserver::{XConn, XRequest};

verus! {

/// What a workspace holds.
#[verifier::ext_equal]
pub struct WorkspaceView {
    /// What the clients say, in the order of the ring.
    pub clients: Seq<ClientView>,
    /// The index of the focused client.
    pub focus: Option<int>,
    /// The handle of the master.
    pub master: Option<XWindowID>,
    pub layout: LayoutType,
}

impl WorkspaceView {
    /// The empty workspace with the given layout.
    pub open spec fn empty(layout: LayoutType) -> Self {
        WorkspaceView { clients: Seq::empty(), focus: None, master: None, layout }
    }

    /// The clients and the focus as a ring.
    pub open spec fn ring(self) -> RingView<ClientView> {
        RingView { items: self.clients, focus: self.focus }
    }

    /// The workspace with another ring of clients.
    pub open spec fn with_ring(self, ring: RingView<ClientView>) -> Self {
        WorkspaceView { clients: ring.items, focus: ring.focus, ..self }
    }

    /// The focused client.
    pub open spec fn focused(self) -> Option<ClientView> {
        self.ring().focused()
    }

    pub open spec fn is_tiling(self) -> bool {
        self.layout != LayoutType::Floating
    }

    /// What holds of the master of a workspace: a floating workspace has
    /// none; a tiling workspace has one exactly when it has a tiled
    /// client, and the master is the first client of the ring and tiled.
    pub open spec fn master_ok(self) -> bool {
        if self.layout == LayoutType::Floating {
            self.master is None
        } else {
            &&& self.master is Some <==> tiled_count(self.clients) >= 1
            &&& self.master matches Some(m) ==> {
                &&& self.clients.len() > 0
                &&& self.clients[0].id == m
                &&& self.clients[0].is_tiled()
            }
        }
    }

    /// What holds of a workspace whenever an operation on it is over: the
    /// master is what it has to be, a client has the focus unless there
    /// is none, and no two clients share a handle.
    pub open spec fn sound(self) -> bool {
        self.master_ok() && self.ring().consistent() && distinct(self.clients)
    }

    /// Whether another sequence of clients holds the same windows in the
    /// same places, each tiled or floating as before.
    pub open spec fn same_windows(self, clients: Seq<ClientView>) -> bool {
        &&& clients.len() == self.clients.len()
        &&& forall|i: int|
            0 <= i < clients.len() ==> (#[trigger] clients[i]).id == self.clients[i].id
                && clients[i].is_tiled() == self.clients[i].is_tiled()
    }

    /// The workspace after the client at `idx` became master and changed
    /// places with the first client.
    pub open spec fn promote(self, idx: int) -> Self {
        if 0 <= idx < self.clients.len() {
            WorkspaceView {
                master: Some(self.clients[idx].id),
                ..self.with_ring(self.ring().move_front(idx))
            }
        } else {
            self
        }
    }

    /// The workspace after the first client with the given handle became
    /// master; unchanged where no client has the handle.
    pub open spec fn set_master(self, id: XWindowID) -> Self {
        match index_of(self.clients, id) {
            Some(idx) => self.promote(idx),
            None => self,
        }
    }

    pub open spec fn unset_master(self) -> Self {
        WorkspaceView { master: None, ..self }
    }

    /// The workspace with the master that its clients call for: the first
    /// tiled client, promoted, and none where no client is tiled.
    pub open spec fn elect(self) -> Self {
        match first_tiled(self.clients) {
            Some(idx) => self.promote(idx),
            None => self.unset_master(),
        }
    }

    /// The workspace under another layout. A floating workspace has no
    /// master, a tiling workspace elects one. Manual tiling is not on
    /// offer: the workspace stays as it is.
    pub open spec fn set_layout(self, layout: LayoutType) -> Self {
        match layout {
            LayoutType::Floating => WorkspaceView { layout, master: None, ..self },
            LayoutType::DTiled => (WorkspaceView { layout, ..self }).elect(),
            LayoutType::MTiled => self,
        }
    }

    /// The workspace after a client was handed to it: at the front under
    /// the floating layout and where the workspace has no master, and then
    /// as master if it is tiled; else at the back.
    pub open spec fn push_window(self, client: ClientView) -> Self {
        if self.layout == LayoutType::Floating {
            self.with_ring(self.ring().push(client))
        } else if self.master is None {
            if client.is_tiled() {
                self.with_ring(self.ring().push(client)).promote(0)
            } else {
                self.with_ring(self.ring().push(client))
            }
        } else {
            self.with_ring(self.ring().append(client))
        }
    }

    /// The workspace after it was shown on the screen.
    pub open spec fn activate(self, screen: Geometry) -> Self {
        if self.is_tiling() {
            self.tile(screen).shown()
        } else {
            self.shown()
        }
    }

    /// What the server is asked when the workspace is shown.
    pub open spec fn activate_requests(self, screen: Geometry) -> Seq<XRequest> {
        if self.is_tiling() {
            self.tile(screen).show_requests()
        } else {
            self.show_requests()
        }
    }

    /// The workspace after its clients were laid out on the screen.
    pub open spec fn relayout(self, screen: Geometry) -> Self {
        if self.is_tiling() {
            self.tile(screen)
        } else {
            self
        }
    }

    /// What the server is asked when the clients are laid out: under a
    /// tiling layout the geometry of every client, else nothing.
    pub open spec fn relayout_requests(self, screen: Geometry) -> Seq<XRequest> {
        if self.is_tiling() {
            update_requests(self.tile(screen).clients)
        } else {
            Seq::empty()
        }
    }

    /// The record of a window that joins the workspace: tiled under a
    /// tiling layout; under the floating layout floating, with the
    /// geometry that the server reported, or the fallback.
    pub open spec fn newcomer(
        self,
        id: XWindowID,
        properties: XWinProperties,
        geometry: Option<Geometry>,
    ) -> ClientView {
        if self.is_tiling() {
            ClientView::admitted(id, properties, WinLayoutState::Tiled)
        } else {
            ClientView::admitted(id, properties, WinLayoutState::Floating).with_geometry(
                Geometry::or_fallback(geometry),
            )
        }
    }

    /// The workspace after a client joined it.
    pub open spec fn add_window(self, client: ClientView, screen: Geometry) -> Self {
        if self.is_tiling() {
            self.dtiled_add_window(client, screen)
        } else {
            self.floating_add_window(client)
        }
    }

    /// What the server is asked when a client joins.
    pub open spec fn add_window_requests(self, client: ClientView, screen: Geometry) -> Seq<
        XRequest,
    > {
        if self.is_tiling() {
            self.dtiled_add_window_requests(client, screen)
        } else {
            self.floating_add_window_requests(client)
        }
    }

    /// The workspace after the client at `idx` left it.
    pub open spec fn del_window(self, idx: int, screen: Geometry) -> Self {
        if self.is_tiling() {
            self.dtiled_del_window(idx, screen)
        } else {
            self.floating_del_window(idx)
        }
    }

    /// What the server is asked when the client at `idx` leaves.
    pub open spec fn del_window_requests(self, idx: int, screen: Geometry) -> Seq<XRequest> {
        if self.is_tiling() {
            self.dtiled_del_window_requests(idx, screen)
        } else {
            self.floating_del_window_requests(idx)
        }
    }

    /// The workspace after the focused client changed between tiled and
    /// floating, before the clients are laid out anew. Under a tiling
    /// layout a client that becomes tiled becomes master where there was
    /// none; when the last tiled client floats the workspace loses its
    /// master, and when the master floats the first tiled client takes
    /// over.
    pub open spec fn toggled(self) -> Self {
        match self.focus {
            Some(f) => {
                let client = self.clients[f];
                let flipped = WorkspaceView {
                    clients: self.clients.update(
                        f,
                        client.with_layout_state(client.layout_state.toggled()),
                    ),
                    ..self
                };
                if !self.is_tiling() {
                    flipped
                } else if client.is_floating() {
                    if self.master is None {
                        flipped.promote(f)
                    } else {
                        flipped
                    }
                } else if tiled_count(flipped.clients) == 0 {
                    flipped.unset_master()
                } else if self.master == Some(client.id) {
                    flipped.elect()
                } else {
                    flipped
                }
            },
            None => self,
        }
    }

    /// The workspace after the focused client changed between tiled and
    /// floating. Nothing changes where no client is focused.
    pub open spec fn toggle_focused_state(self, screen: Geometry) -> Self {
        match self.focus {
            Some(f) => self.toggled().relayout(screen),
            None => self,
        }
    }

    /// What the server is asked when the focused client changes between
    /// tiled and floating: a window that floats is raised; then the
    /// clients are laid out.
    pub open spec fn toggle_focused_state_requests(self, screen: Geometry) -> Seq<XRequest> {
        match self.focus {
            Some(f) => (if self.clients[f].is_floating() {
                Seq::empty()
            } else {
                seq![XRequest::StackAbove(self.clients[f].id)]
            }) + self.toggled().relayout_requests(screen),
            None => Seq::empty(),
        }
    }

    /// Whether a drag by `(dx, dy)` leaves the place of the client at
    /// `idx` within the range of a coordinate.
    pub open spec fn can_move(self, idx: int, dx: i32, dy: i32) -> bool {
        &&& 0 <= idx < self.clients.len()
        &&& i32::MIN <= self.clients[idx].geom.x + dx <= i32::MAX
        &&& i32::MIN <= self.clients[idx].geom.y + dy <= i32::MAX
    }

    /// Whether a drag by `(dx, dy)` leaves the size of the client at `idx`
    /// within the range of a coordinate.
    pub open spec fn can_resize(self, idx: int, dx: i32, dy: i32) -> bool {
        &&& 0 <= idx < self.clients.len()
        &&& i32::MIN <= self.clients[idx].geom.width + dx <= i32::MAX
        &&& i32::MIN <= self.clients[idx].geom.height + dy <= i32::MAX
    }

    /// The workspace after a client that was dragged is in its new
    /// geometry `dragged`: a tiled client leaves the tiling, as the
    /// focused client does when it is toggled, and the clients are laid
    /// out once more.
    pub open spec fn with_dragged(self, idx: int, dragged: ClientView, screen: Geometry) -> Self {
        let held = WorkspaceView { clients: self.clients.update(idx, dragged), ..self };
        if dragged.is_tiled() {
            held.toggle_focused_state(screen).relayout(screen)
        } else {
            held
        }
    }

    /// What the server is asked after the drag itself.
    pub open spec fn with_dragged_requests(
        self,
        idx: int,
        dragged: ClientView,
        screen: Geometry,
    ) -> Seq<XRequest> {
        let held = WorkspaceView { clients: self.clients.update(idx, dragged), ..self };
        if dragged.is_tiled() {
            held.toggle_focused_state_requests(screen) + held.toggle_focused_state(
                screen,
            ).relayout_requests(screen)
        } else {
            Seq::empty()
        }
    }

    /// The workspace after the client at `idx` was dragged by `(dx, dy)`.
    /// Nothing happens where the drag would take the client out of the
    /// range of a coordinate.
    pub open spec fn drag_move(self, idx: int, dx: i32, dy: i32, screen: Geometry) -> Self {
        if self.can_move(idx, dx, dy) {
            self.with_dragged(idx, self.clients[idx].moved(dx, dy), screen)
        } else {
            self
        }
    }

    /// What the server is asked when the client at `idx` is dragged by
    /// `(dx, dy)`.
    pub open spec fn drag_move_requests(self, idx: int, dx: i32, dy: i32, screen: Geometry) -> Seq<
        XRequest,
    > {
        if self.can_move(idx, dx, dy) {
            let dragged = self.clients[idx].moved(dx, dy);
            seq![XRequest::Move(dragged.id, dragged.geom.x, dragged.geom.y)]
                + self.with_dragged_requests(idx, dragged, screen)
        } else {
            Seq::empty()
        }
    }

    /// The workspace after the client at `idx` was made larger by
    /// `(dx, dy)`. Nothing happens where that would take its size out of
    /// the range of a coordinate.
    pub open spec fn drag_resize(self, idx: int, dx: i32, dy: i32, screen: Geometry) -> Self {
        if self.can_resize(idx, dx, dy) {
            self.with_dragged(idx, self.clients[idx].resized(dx, dy), screen)
        } else {
            self
        }
    }

    /// What the server is asked when the client at `idx` is made larger
    /// by `(dx, dy)`.
    pub open spec fn drag_resize_requests(
        self,
        idx: int,
        dx: i32,
        dy: i32,
        screen: Geometry,
    ) -> Seq<XRequest> {
        if self.can_resize(idx, dx, dy) {
            let dragged = self.clients[idx].resized(dx, dy);
            seq![XRequest::Resize(dragged.id, dragged.geom.width, dragged.geom.height)]
                + self.with_dragged_requests(idx, dragged, screen)
        } else {
            Seq::empty()
        }
    }
}

/// Laying the clients out keeps what holds of the master.
pub proof fn lemma_relayout_master_ok(ws: WorkspaceView, screen: Geometry)
    requires
        ws.master_ok(),
    ensures
        ws.relayout(screen).master_ok(),
        ws.relayout(screen).clients.len() == ws.clients.len(),
{
    lemma_tiled_keeps(ws.clients, screen);
}

/// Electing a master makes what holds of the master of a tiling workspace
/// hold.
pub proof fn lemma_elect_master_ok(ws: WorkspaceView)
    requires
        ws.is_tiling(),
    ensures
        ws.elect().master_ok(),
{
    lemma_first_tiled(ws.clients);
    lemma_tiled_count_zero(ws.clients);
    match first_tiled(ws.clients) {
        Some(idx) => {
            lemma_tiled_count_swap(ws.clients, idx);
            assert(ws.clients[idx].is_tiled());
        },
        None => {},
    }
}

/// The master that is elected is the nearest to the front: the first
/// client of the ring where it is tiled; and where the first floats and
/// the second is tiled, the second, which changes places with the first.
pub proof fn lemma_elect_nearest(ws: WorkspaceView)
    ensures
        ws.clients.len() > 0 && ws.clients[0].is_tiled() ==> ws.elect() == (WorkspaceView {
            master: Some(ws.clients[0].id),
            ..ws
        }),
        ws.clients.len() > 1 && !ws.clients[0].is_tiled() && ws.clients[1].is_tiled()
            ==> ws.elect() == ws.promote(1),
{
    if ws.clients.len() > 0 && ws.clients[0].is_tiled() {
        lemma_first_tiled_is(ws.clients, Some(0));
        assert(ws.promote(0).clients =~= ws.clients);
    }
    if ws.clients.len() > 1 && !ws.clients[0].is_tiled() && ws.clients[1].is_tiled() {
        lemma_first_tiled_is(ws.clients, Some(1));
    }
}

/// After a window joined a workspace, a tiling workspace has a master
/// exactly when it has a tiled client, and the master is the first client
/// of the ring; a floating workspace has no master.
pub proof fn lemma_add_window_master_ok(ws: WorkspaceView, client: ClientView, screen: Geometry)
    requires
        ws.master_ok(),
        ws.is_tiling() ==> client.is_tiled(),
    ensures
        ws.add_window(client, screen).master_ok(),
{
    if ws.is_tiling() {
        let placed = ws.dtiled_placed(client);
        lemma_tiled_count_zero(ws.clients);
        if ws.master is Some {
            lemma_tiled_count_insert(ws.clients, ws.clients.len() as int, client);
        } else {
            lemma_tiled_count_insert(ws.clients, 0, client);
            let pushed = ws.with_ring(ws.ring().push(client));
            assert(pushed.clients[0] == client);
            assert(pushed.promote(0).clients =~= pushed.clients);
        }
        assert(placed.master_ok());
        lemma_tiled_keeps(placed.clients, screen);
    }
}

/// After a window left a workspace, a tiling workspace has a master
/// exactly when it has a tiled client, and the master is the first client
/// of the ring; a floating workspace has no master.
pub proof fn lemma_del_window_master_ok(ws: WorkspaceView, idx: int, screen: Geometry)
    requires
        ws.master_ok(),
        0 <= idx < ws.clients.len(),
    ensures
        ws.del_window(idx, screen).master_ok(),
{
    if ws.is_tiling() {
        let left = ws.with_ring(ws.ring().remove(idx).unset_focused());
        lemma_tiled_count_remove(ws.clients, idx);
        lemma_tiled_count_zero(left.clients);
        let led = if ws.master == Some(ws.clients[idx].id) {
            left.elect()
        } else {
            left
        };
        if ws.master == Some(ws.clients[idx].id) {
            lemma_elect_master_ok(left);
        } else if ws.master is Some {
            assert(idx != 0);
            assert(left.clients[0] == ws.clients[0]);
        }
        assert(led.master_ok());
        lemma_tiled_keeps(ws.dtiled_left(idx).clients, screen);
    }
}

/// After the focused client changed between tiled and floating, a tiling
/// workspace has a master exactly when it has a tiled client, and the
/// master is the first client of the ring; a floating workspace has no
/// master.
pub proof fn lemma_toggle_master_ok(ws: WorkspaceView, screen: Geometry)
    requires
        ws.master_ok(),
        ws.ring().valid(),
    ensures
        ws.toggle_focused_state(screen).master_ok(),
{
    if let Some(f) = ws.focus {
        let client = ws.clients[f];
        let flipped = WorkspaceView {
            clients: ws.clients.update(f, client.with_layout_state(client.layout_state.toggled())),
            ..ws
        };
        lemma_tiled_count_update(
            ws.clients,
            f,
            client.with_layout_state(client.layout_state.toggled()),
        );
        lemma_tiled_count_zero(ws.clients);
        lemma_tiled_count_zero(flipped.clients);
        if ws.is_tiling() {
            if client.is_floating() {
                if ws.master is None {
                    lemma_tiled_count_swap(flipped.clients, f);
                }
            } else if tiled_count(flipped.clients) == 0 {
            } else if ws.master == Some(client.id) {
                lemma_elect_master_ok(flipped);
            } else {
                assert(f != 0);
                assert(flipped.clients[0] == ws.clients[0]);
            }
        }
        assert(ws.toggled().master_ok());
        lemma_relayout_master_ok(ws.toggled(), screen);
    }
}

/// Laying the clients out twice, with nothing in between, gives what
/// laying them out once gives: the same workspace, and the same requests
/// to the server both times.
pub proof fn lemma_relayout_idempotent(ws: WorkspaceView, screen: Geometry)
    ensures
        ws.relayout(screen).relayout(screen) == ws.relayout(screen),
        ws.relayout(screen).relayout_requests(screen) == ws.relayout_requests(screen),
{
    lemma_tiled_keeps(ws.clients, screen);
    lemma_tiled_idempotent(ws.clients, screen);
}

/// In a tiling workspace that was laid out on a screen that can be tiled,
/// no two tiled windows overlap, with their borders or without. The master
/// is the first tiled client; the others begin where its border ends,
/// stand one above the other, and each begins where the border of the
/// tiled client before it ends.
pub proof fn lemma_relayout_no_overlap(ws: WorkspaceView, screen: Geometry, i: int, j: int)
    requires
        ws.is_tiling(),
        tileable(screen),
        0 <= i < j < ws.clients.len(),
        ws.clients[i].is_tiled(),
        ws.clients[j].is_tiled(),
    ensures
        ({
            let laid = ws.relayout(screen).clients;
            &&& laid.len() == ws.clients.len()
            &&& !overlap(framed(laid[i].geom), framed(laid[j].geom))
            &&& !overlap(inner(laid[i].geom), inner(laid[j].geom))
            &&& rank(ws.clients, i) == 0 ==> laid[j].geom.x == laid[i].geom.x + laid[i].geom.width + 2
                * BORDER_WIDTH
            &&& rank(ws.clients, i) >= 1 ==> laid[j].geom.x == laid[i].geom.x && laid[j].geom.width
                == laid[i].geom.width
            &&& rank(ws.clients, i) >= 1 && rank(ws.clients, j) == rank(ws.clients, i) + 1
                ==> laid[j].geom.y == laid[i].geom.y + laid[i].geom.height + 2 * BORDER_WIDTH
        }),
{
    lemma_rank(ws.clients, i, j);
    lemma_slots_apart(
        screen,
        tiled_count(ws.clients) as int,
        rank(ws.clients, i) as int,
        rank(ws.clients, j) as int,
    );
}

/// In a tiling workspace with two or more tiled clients that was laid out
/// on a screen with room for them, every tiled window has a width and a
/// height above zero.
pub proof fn lemma_relayout_roomy(ws: WorkspaceView, screen: Geometry, i: int)
    requires
        ws.is_tiling(),
        tileable(screen),
        roomy(screen, tiled_count(ws.clients) as int),
        2 <= tiled_count(ws.clients),
        0 <= i < ws.clients.len(),
        ws.clients[i].is_tiled(),
    ensures
        ({
            let laid = ws.relayout(screen).clients;
            &&& laid.len() == ws.clients.len()
            &&& laid[i].geom.width > 0
            &&& laid[i].geom.height > 0
        }),
{
    lemma_rank(ws.clients, i, i);
    lemma_slots_roomy(screen, tiled_count(ws.clients) as int, rank(ws.clients, i) as int);
}

/// The second tiled window of a tiling workspace comes to stand beside
/// the first, which stays the master: both begin at the top of the screen
/// and have its height less the border, both have the same width, and the
/// second begins where the border of the first ends.
pub proof fn lemma_add_second_window(
    ws: WorkspaceView,
    client: ClientView,
    screen: Geometry,
    i: int,
)
    requires
        ws.is_tiling(),
        ws.sound(),
        tileable(screen),
        client.is_tiled(),
        tiled_count(ws.clients) == 1,
        0 <= i < ws.clients.len(),
        ws.clients[i].is_tiled(),
    ensures
        ({
            let after = ws.add_window(client, screen);
            let first = after.clients[i].geom;
            let second = after.clients.last().geom;
            &&& after.clients.len() == ws.clients.len() + 1
            &&& after.master == ws.master
            &&& after.clients[i].id == ws.clients[i].id
            &&& after.clients.last().id == client.id
            &&& first.x == screen.x
            &&& first.y == screen.y
            &&& second.y == screen.y
            &&& first.height == screen.height - 2 * BORDER_WIDTH
            &&& second.height == screen.height - 2 * BORDER_WIDTH
            &&& second.width == first.width
            &&& second.x == first.x + first.width + 2 * BORDER_WIDTH
        }),
{
    let placed = ws.dtiled_placed(client);
    let last = ws.clients.len() as int;
    assert(placed.clients =~= ws.clients.push(client));
    assert(placed.clients.drop_last() =~= ws.clients);
    lemma_tiled_keeps(placed.clients, screen);
    lemma_tile_arranged(placed, screen);
    lemma_arranged_pair(placed.tile(screen).clients, screen, i, last);
}

/// A workspace stays sound when its clients change in nothing but their
/// geometry and what else does not count in the tiling.
pub proof fn lemma_same_windows_sound(ws: WorkspaceView, clients: Seq<ClientView>)
    requires
        ws.sound(),
        ws.same_windows(clients),
    ensures
        (WorkspaceView { clients, ..ws }).sound(),
        kept(clients, ws.clients),
{
    lemma_tiled_count_same(ws.clients, clients);
    lemma_kept_same(clients, ws.clients);
}

/// Laying the clients out brings no window in and takes none out.
pub proof fn lemma_relayout_kept(ws: WorkspaceView, screen: Geometry)
    ensures
        kept(ws.relayout(screen).clients, ws.clients),
        kept(ws.tile(screen).clients, ws.clients),
{
    lemma_tiled_keeps(ws.clients, screen);
    lemma_kept_same(ws.clients, ws.clients);
    lemma_kept_same(tiled(ws.clients, screen), ws.clients);
}

/// Laying the clients out takes no window out.
pub proof fn lemma_relayout_has(ws: WorkspaceView, screen: Geometry, window: XWindowID)
    requires
        has_id(ws.clients, window),
    ensures
        has_id(ws.relayout(screen).clients, window),
{
    lemma_tiled_keeps(ws.clients, screen);
    lemma_index_of(ws.clients, window);
    let at = index_of(ws.clients, window)->0;
    assert(ws.relayout(screen).clients[at].id == window);
    lemma_has_id_at(ws.relayout(screen).clients, at);
}

/// Making a client master, or electing one, brings no window in.
pub proof fn lemma_elect_kept(ws: WorkspaceView, idx: int)
    ensures
        kept(ws.promote(idx).clients, ws.clients),
        kept(ws.elect().clients, ws.clients),
{
    lemma_kept_same(ws.clients, ws.clients);
    if 0 <= idx < ws.clients.len() {
        lemma_distinct_swap(ws.clients, idx);
    }
    lemma_first_tiled(ws.clients);
    if let Some(first) = first_tiled(ws.clients) {
        lemma_distinct_swap(ws.clients, first);
    }
}

/// Laying the clients out keeps a workspace sound.
pub proof fn lemma_relayout_sound(ws: WorkspaceView, screen: Geometry)
    requires
        ws.sound(),
    ensures
        ws.relayout(screen).sound(),
        ws.tile(screen).sound(),
{
    lemma_tiled_keeps(ws.clients, screen);
    lemma_relayout_kept(ws, screen);
}

/// Giving the focus to a window keeps a workspace sound.
pub proof fn lemma_focus_window_sound(ws: WorkspaceView, window: XWindowID)
    requires
        ws.sound(),
    ensures
        ws.focus_window(window).sound(),
        ws.focus_window(window).clients == ws.clients,
{
    lemma_index_of(ws.clients, window);
}

/// Moving the focus one client on keeps a workspace sound.
pub proof fn lemma_cycle_focus_sound(ws: WorkspaceView, direction: Direction)
    requires
        ws.sound(),
    ensures
        ws.cycle_focus(direction).sound(),
        ws.cycle_focus(direction).clients == ws.clients,
{
}

/// Showing a workspace keeps it sound, and brings no window in.
pub proof fn lemma_activate_sound(ws: WorkspaceView, screen: Geometry)
    requires
        ws.sound(),
    ensures
        ws.activate(screen).sound(),
        kept(ws.activate(screen).clients, ws.clients),
{
    lemma_relayout_sound(ws, screen);
    lemma_relayout_kept(ws, screen);
    lemma_kept_same(ws.clients, ws.clients);
    let laid = if ws.is_tiling() {
        ws.tile(screen)
    } else {
        ws
    };
    if let Some(window) = laid.main_window() {
        lemma_focus_window_sound(laid, window);
    }
}

/// A workspace is sound after a window joined it that it did not hold
/// before, and the window is the only one that joined.
pub proof fn lemma_add_window_sound(ws: WorkspaceView, client: ClientView, screen: Geometry)
    requires
        ws.sound(),
        ws.is_tiling() ==> client.is_tiled(),
        !has_id(ws.clients, client.id),
    ensures
        ws.add_window(client, screen).sound(),
        joined(ws.add_window(client, screen).clients, ws.clients, client.id),
        has_id(ws.add_window(client, screen).clients, client.id),
{
    lemma_add_window_master_ok(ws, client, screen);
    if ws.is_tiling() {
        let at = if ws.master is Some {
            ws.clients.len() as int
        } else {
            0
        };
        let entered = ws.clients.insert(at, client);
        lemma_distinct_insert(ws.clients, at, client);
        assert(joined(entered, ws.clients, client.id));
        let placed = ws.dtiled_placed(client);
        assert(placed.clients =~= entered);
        lemma_tiled_keeps(placed.clients, screen);
        lemma_relayout_kept(placed, screen);
        let laid = placed.tile(screen);
        lemma_kept_joined(laid.clients, placed.clients, ws.clients, client.id);
        assert(laid.clients[at].id == client.id);
        lemma_has_id_at(laid.clients, at);
        lemma_index_of(laid.clients, client.id);
    } else {
        let pushed = ws.with_ring(ws.ring().push(client));
        lemma_distinct_insert(ws.clients, 0, client);
        lemma_index_of(pushed.clients, client.id);
    }
}

/// A workspace is sound after a window left it: the window is gone, and
/// no window came in.
pub proof fn lemma_del_window_sound(ws: WorkspaceView, idx: int, screen: Geometry)
    requires
        ws.sound(),
        0 <= idx < ws.clients.len(),
    ensures
        ws.del_window(idx, screen).sound(),
        kept(ws.del_window(idx, screen).clients, ws.clients),
        !has_id(ws.del_window(idx, screen).clients, ws.clients[idx].id),
{
    lemma_del_window_master_ok(ws, idx, screen);
    lemma_distinct_remove(ws.clients, idx);
    if ws.is_tiling() {
        let left = ws.with_ring(ws.ring().remove(idx).unset_focused());
        let led = if ws.master == Some(ws.clients[idx].id) {
            left.elect()
        } else {
            left
        };
        lemma_elect_kept(left, 0);
        lemma_kept_same(left.clients, left.clients);
        lemma_kept_trans(led.clients, left.clients, ws.clients);
        if let Some(window) = led.fallback() {
            lemma_index_of(led.clients, window);
            if led.master is Some {
                lemma_tiled_count_remove(ws.clients, idx);
                lemma_tiled_count_zero(left.clients);
                if ws.master == Some(ws.clients[idx].id) {
                    lemma_elect_master_ok(left);
                } else {
                    assert(idx != 0);
                    assert(left.clients[0] == ws.clients[0]);
                }
                assert(led.clients[0].id == window);
            }
        }
        let refocused = ws.dtiled_left(idx);
        assert(refocused.clients == led.clients);
        lemma_tiled_keeps(refocused.clients, screen);
        lemma_relayout_kept(refocused, screen);
        lemma_kept_trans(ws.del_window(idx, screen).clients, refocused.clients, ws.clients);
        lemma_within_trans(ws.del_window(idx, screen).clients, led.clients, left.clients);
        lemma_within_gone(ws.del_window(idx, screen).clients, left.clients, ws.clients[idx].id);
    } else {
        let left = ws.with_ring(ws.ring().remove(idx));
        if idx == 0 && left.clients.len() > 0 {
            lemma_index_of(left.clients, left.clients[0].id);
        }
    }
}

/// A workspace is sound after the focused client changed between tiled
/// and floating, and no window came in.
pub proof fn lemma_toggle_sound(ws: WorkspaceView, screen: Geometry)
    requires
        ws.sound(),
    ensures
        ws.toggle_focused_state(screen).sound(),
        kept(ws.toggle_focused_state(screen).clients, ws.clients),
{
    lemma_toggle_master_ok(ws, screen);
    lemma_kept_same(ws.clients, ws.clients);
    if let Some(f) = ws.focus {
        let client = ws.clients[f];
        let flipped = WorkspaceView {
            clients: ws.clients.update(f, client.with_layout_state(client.layout_state.toggled())),
            ..ws
        };
        lemma_kept_same(flipped.clients, ws.clients);
        lemma_elect_kept(flipped, f);
        lemma_kept_same(flipped.clients, flipped.clients);
        lemma_kept_trans(ws.toggled().clients, flipped.clients, ws.clients);
        lemma_tiled_keeps(ws.toggled().clients, screen);
        lemma_relayout_kept(ws.toggled(), screen);
        lemma_kept_trans(
            ws.toggle_focused_state(screen).clients,
            ws.toggled().clients,
            ws.clients,
        );
        lemma_first_tiled(flipped.clients);
    }
}

/// A workspace is sound after a client was handed to it whose window it
/// did not hold before, and that window is the only one that joined.
pub proof fn lemma_push_window_sound(ws: WorkspaceView, client: ClientView)
    requires
        ws.sound(),
        !has_id(ws.clients, client.id),
    ensures
        ws.push_window(client).sound(),
        joined(ws.push_window(client).clients, ws.clients, client.id),
        has_id(ws.push_window(client).clients, client.id),
{
    lemma_tiled_count_zero(ws.clients);
    lemma_distinct_insert(ws.clients, 0, client);
    lemma_distinct_insert(ws.clients, ws.clients.len() as int, client);
    if ws.layout == LayoutType::Floating {
    } else if ws.master is None {
        lemma_tiled_count_insert(ws.clients, 0, client);
        let pushed = ws.with_ring(ws.ring().push(client));
        assert(pushed.clients[0] == client);
        assert(pushed.promote(0).clients =~= pushed.clients);
        lemma_tiled_count_zero(pushed.clients);
    } else {
        lemma_tiled_count_insert(ws.clients, ws.clients.len() as int, client);
    }
}

/// A workspace is sound after one of its windows was dragged, and no
/// window came in.
pub proof fn lemma_drag_sound(ws: WorkspaceView, idx: int, dx: i32, dy: i32, screen: Geometry)
    requires
        ws.sound(),
    ensures
        ws.drag_move(idx, dx, dy, screen).sound(),
        ws.drag_resize(idx, dx, dy, screen).sound(),
        kept(ws.drag_move(idx, dx, dy, screen).clients, ws.clients),
        kept(ws.drag_resize(idx, dx, dy, screen).clients, ws.clients),
{
    lemma_kept_same(ws.clients, ws.clients);
    if ws.can_move(idx, dx, dy) {
        let dragged = ws.clients[idx].moved(dx, dy);
        lemma_dragged_sound(ws, idx, dragged, screen);
    }
    if ws.can_resize(idx, dx, dy) {
        let dragged = ws.clients[idx].resized(dx, dy);
        lemma_dragged_sound(ws, idx, dragged, screen);
    }
}

/// A workspace is sound after one of its clients took another geometry
/// in a drag.
proof fn lemma_dragged_sound(ws: WorkspaceView, idx: int, dragged: ClientView, screen: Geometry)
    requires
        ws.sound(),
        0 <= idx < ws.clients.len(),
        dragged.id == ws.clients[idx].id,
        dragged.is_tiled() == ws.clients[idx].is_tiled(),
    ensures
        ws.with_dragged(idx, dragged, screen).sound(),
        kept(ws.with_dragged(idx, dragged, screen).clients, ws.clients),
{
    let held = WorkspaceView { clients: ws.clients.update(idx, dragged), ..ws };
    lemma_same_windows_sound(ws, held.clients);
    if dragged.is_tiled() {
        lemma_toggle_sound(held, screen);
        let floated = held.toggle_focused_state(screen);
        lemma_relayout_sound(floated, screen);
        lemma_relayout_kept(floated, screen);
        lemma_kept_trans(floated.clients, held.clients, ws.clients);
        lemma_kept_trans(floated.relayout(screen).clients, floated.clients, ws.clients);
    }
}

/// The windows of one virtual desktop.
#[derive(Clone)]
pub struct Workspace {
    pub windows: ClientRing,
    pub master: Option<XWindowID>,
    pub layout: LayoutType,
}

impl View for Workspace {
    type V = WorkspaceView;

    open spec fn view(&self) -> WorkspaceView {
        WorkspaceView {
            clients: views(self.windows@.items),
            focus: self.windows@.focus,
            master: self.master,
            layout: self.layout,
        }
    }
}

impl Default for Workspace {
    fn default() -> (ws: Self)
        ensures
            ws@ == WorkspaceView::empty(LayoutType::DTiled),
            ws@.sound(),
    {
        Self { windows: Ring::new(), master: None, layout: LayoutType::DTiled }
    }
}

impl Workspace {
    /// An empty workspace with the given layout. Manual tiling is not on
    /// offer: dynamic tiling is taken in its place.
    pub fn with_layout(layout: LayoutType) -> (ws: Self)
        ensures
            ws@ == WorkspaceView::empty(
                if layout == LayoutType::Floating {
                    LayoutType::Floating
                } else {
                    LayoutType::DTiled
                },
            ),
            ws@.sound(),
    {
        match layout {
            LayoutType::Floating => Self { windows: Ring::new(), master: None, layout },
            LayoutType::DTiled => Self { windows: Ring::new(), master: None, layout },
            _ => Self::default(),
        }
    }

    /// Puts the workspace under another layout.
    pub fn set_layout(&mut self, layout: LayoutType)
        ensures
            final(self)@ == old(self)@.set_layout(layout),
    {
        match layout {
            LayoutType::Floating => {
                self.layout = layout;
                self.master = None;
            },
            LayoutType::DTiled => {
                self.layout = layout;
                self.elect();
            },
            _ => {},
        }
    }

    /// Gives the workspace the master that its clients call for.
    pub fn elect(&mut self)
        ensures
            final(self)@ == old(self)@.elect(),
    {
        match self.first_tiled() {
            Some(idx) => self.promote(idx),
            None => self.unset_master(),
        }
    }

    /// The index of the first tiled client.
    pub fn first_tiled(&self) -> (r: Option<usize>)
        ensures
            crate::window::as_index(r) == first_tiled(self@.clients),
            r matches Some(i) ==> i < self@.clients.len(),
    {
        let mut i: usize = 0;
        while i < self.windows.len()
            invariant
                forall|j: int| 0 <= j < i ==> !(#[trigger] self@.clients[j]).is_tiled(),
            decreases self@.clients.len() - i,
        {
            if let Some(win) = self.windows.get(i) {
                if win.is_tiled() {
                    proof {
                        assert(self@.clients[i as int].is_tiled());
                        lemma_first_tiled_is(self@.clients, Some(i as int));
                    }
                    return Some(i)
                }
            }
            assert(!self@.clients[i as int].is_tiled());
            i += 1;
        }
        proof {
            lemma_first_tiled_is(self@.clients, None);
        }
        None
    }

    /// Hands a client to the workspace. The server is not told.
    pub fn push_window(&mut self, window: Client)
        ensures
            final(self)@ == old(self)@.push_window(window@),
            old(self)@.sound() && !has_id(old(self)@.clients, window@.id) ==> final(self)@.sound()
                && has_id(final(self)@.clients, window@.id),
    {
        proof {
            lemma_views_insert(self.windows@, 0, window);
            lemma_views_insert(self.windows@, self.windows@.items.len() as int, window);
            if self@.sound() && !has_id(self@.clients, window@.id) {
                lemma_push_window_sound(self@, window@);
            }
        }
        if let LayoutType::Floating = self.layout {
            self.windows.push(window);
        } else if let None = self.master {
            if window.is_tiled() {
                self.windows.push(window);
                self.promote(0);
            } else {
                self.windows.push(window);
            }
        } else {
            self.windows.append(window);
        }
    }

    /// Makes the client at `idx` the master and has it change places with
    /// the first client. Nothing happens where there is no such client.
    pub fn promote(&mut self, idx: usize)
        ensures
            final(self)@ == old(self)@.promote(idx as int),
    {
        if let Some(win) = self.windows.get(idx) {
            let id = win.id();
            proof {
                lemma_views_move_front(self.windows@, idx as int);
            }
            self.master = Some(id);
            self.windows.move_front(idx);
        }
    }

    /// Makes the first client with the given handle the master, and has
    /// it change places with the first client. Nothing happens where no
    /// client has the handle.
    pub fn set_master(&mut self, master_id: XWindowID)
        ensures
            final(self)@ == old(self)@.set_master(master_id),
    {
        if let Some(idx) = self.windows.get_idx(master_id) {
            self.promote(idx);
        }
    }

    /// Leaves the workspace without a master.
    pub fn unset_master(&mut self)
        ensures
            final(self)@ == old(self)@.unset_master(),
    {
        self.master = None;
    }

    /// The window to which the focus falls back: the master, or the first
    /// of the ring where there is no master.
    pub fn fallback(&self) -> (r: Option<XWindowID>)
        ensures
            r == self@.fallback(),
    {
        match self.master {
            Some(master) => Some(master),
            None => match self.windows.get(0) {
                Some(first) => Some(first.id()),
                None => None,
            },
        }
    }

    #[inline]
    pub fn is_master(&self, win_id: XWindowID) -> (b: bool)
        ensures
            b == (self@.master == Some(win_id)),
    {
        if let Some(win) = self.master {
            return win == win_id
        }
        false
    }

    #[inline(always)]
    pub fn master(&self) -> (master: Option<XWindowID>)
        ensures
            master == self@.master,
    {
        self.master
    }

    #[inline(always)]
    pub fn is_empty(&self) -> (b: bool)
        ensures
            b == (self@.clients.len() == 0),
    {
        self.windows.len() == 0
    }

    pub fn is_tiling(&self) -> (b: bool)
        ensures
            b == self@.is_tiling(),
    {
        if let LayoutType::Floating = self.layout {
            return false
        }
        true
    }

    pub fn is_floating(&self) -> (b: bool)
        ensures
            b == !self@.is_tiling(),
    {
        if let LayoutType::Floating = self.layout {
            return true
        }
        false
    }

    /// The number of tiled clients.
    pub fn tiled_count(&self) -> (n: usize)
        ensures
            n == tiled_count(self@.clients),
    {
        let mut n: usize = 0;
        let mut i: usize = 0;
        while i < self.windows.len()
            invariant
                i <= self@.clients.len(),
                n == tiled_count(self@.clients.subrange(0, i as int)),
                n <= i,
            decreases self@.clients.len() - i,
        {
            proof {
                assert(self@.clients.subrange(0, i + 1).drop_last() =~= self@.clients.subrange(
                    0,
                    i as int,
                ));
            }
            if let Some(win) = self.windows.get(i) {
                if win.is_tiled() {
                    n += 1;
                }
            }
            i += 1;
        }
        assert(self@.clients.subrange(0, i as int) =~= self@.clients);
        n
    }

    /// The number of floating clients.
    pub fn floating_count(&self) -> (n: usize)
        ensures
            n == self@.clients.len() - tiled_count(self@.clients),
    {
        proof {
            crate::layout::dtiled::lemma_tiled_count_zero(self@.clients);
        }
        self.windows.len() - self.tiled_count()
    }

    /// The index of the first client with the given handle.
    pub fn contains(&self, window: XWindowID) -> (r: Option<usize>)
        ensures
            crate::window::as_index(r) == index_of(self@.clients, window),
            r matches Some(i) ==> i < self@.clients.len(),
    {
        self.windows.get_idx(window)
    }

    /// Shows the workspace on the screen.
    pub fn activate(&mut self, conn: &mut XConn, screen: &Screen)
        ensures
            final(self)@ == old(self)@.activate(screen.xwindow.geom),
            final(conn).extends(old(conn), old(self)@.activate_requests(screen.xwindow.geom)),
            old(self)@.sound() ==> final(self)@.sound(),
            old(self)@.is_tiling() && tileable(screen.xwindow.geom) ==> arranged(
                final(self)@.clients,
                screen.xwindow.geom,
            ),
    {
        proof {
            if self@.sound() {
                lemma_activate_sound(self@, screen.xwindow.geom);
            }
        }
        match self.layout {
            LayoutType::Floating => floating::activate(conn, self, screen),
            _ => dtiled::activate(conn, self, screen),
        }
    }

    /// Hides every window of the workspace.
    pub fn deactivate(&mut self, conn: &mut XConn)
        ensures
            final(self)@ == old(self)@,
            final(conn).extends(old(conn), hide_all_requests(old(self)@.clients)),
    {
        match self.layout {
            LayoutType::Floating => floating::deactivate(conn, self),
            _ => dtiled::deactivate(conn, self),
        }
    }

    /// Takes a new window into the workspace. `properties` and `geometry`
    /// are what the server said of the window.
    ///
    /// Afterwards a tiling workspace has a master exactly when it has a
    /// tiled client, and the master is the first client of the ring.
    pub fn add_window(
        &mut self,
        conn: &mut XConn,
        screen: &Screen,
        id: XWindowID,
        properties: &XWinProperties,
        geometry: Option<Geometry>,
    )
        ensures
            final(self)@ == old(self)@.add_window(
                old(self)@.newcomer(id, *properties, geometry),
                screen.xwindow.geom,
            ),
            final(conn).extends(
                old(conn),
                old(self)@.add_window_requests(
                    old(self)@.newcomer(id, *properties, geometry),
                    screen.xwindow.geom,
                ),
            ),
            old(self)@.master_ok() ==> final(self)@.master_ok(),
            old(self)@.sound() && !has_id(old(self)@.clients, id) ==> final(self)@.sound()
                && has_id(final(self)@.clients, id),
            old(self)@.is_tiling() && tileable(screen.xwindow.geom) ==> arranged(
                final(self)@.clients,
                screen.xwindow.geom,
            ),
    {
        proof {
            if self@.master_ok() {
                lemma_add_window_master_ok(
                    self@,
                    self@.newcomer(id, *properties, geometry),
                    screen.xwindow.geom,
                );
            }
            if self@.sound() && !has_id(self@.clients, id) {
                lemma_add_window_sound(
                    self@,
                    self@.newcomer(id, *properties, geometry),
                    screen.xwindow.geom,
                );
            }
        }
        match self.layout {
            LayoutType::Floating => floating::add_window(
                conn,
                self,
                screen,
                id,
                properties,
                geometry,
            ),
            _ => dtiled::add_window(conn, self, screen, id, properties),
        }
    }

    /// Takes the client at `idx`, which is the client of the window `id`,
    /// out of the workspace.
    ///
    /// Afterwards a tiling workspace has a master exactly when it has a
    /// tiled client, and the master is the first client of the ring.
    pub fn del_window(&mut self, conn: &mut XConn, screen: &Screen, id: XWindowID, idx: usize) -> (window:
        Client)
        requires
            idx < old(self)@.clients.len(),
            old(self)@.clients[idx as int].id == id,
        ensures
            window@ == old(self)@.clients[idx as int],
            final(self)@ == old(self)@.del_window(idx as int, screen.xwindow.geom),
            final(conn).extends(
                old(conn),
                old(self)@.del_window_requests(idx as int, screen.xwindow.geom),
            ),
            old(self)@.master_ok() ==> final(self)@.master_ok(),
            old(self)@.sound() ==> final(self)@.sound() && !has_id(final(self)@.clients, id),
            old(self)@.is_tiling() && tileable(screen.xwindow.geom) ==> arranged(
                final(self)@.clients,
                screen.xwindow.geom,
            ),
    {
        proof {
            if self@.master_ok() {
                lemma_del_window_master_ok(self@, idx as int, screen.xwindow.geom);
            }
            if self@.sound() {
                lemma_del_window_sound(self@, idx as int, screen.xwindow.geom);
            }
        }
        match self.layout {
            LayoutType::Floating => floating::del_window(conn, self, screen, id, idx),
            _ => dtiled::del_window(conn, self, screen, id, idx),
        }
    }

    /// Makes the focused client floating if it is tiled, and tiled if it
    /// floats, and lays the clients out anew.
    ///
    /// Afterwards a tiling workspace has a master exactly when it has a
    /// tiled client, and the master is the first client of the ring.
    pub fn toggle_focused_state(&mut self, conn: &mut XConn, screen: &Screen)
        ensures
            final(self)@ == old(self)@.toggle_focused_state(screen.xwindow.geom),
            final(conn).extends(
                old(conn),
                old(self)@.toggle_focused_state_requests(screen.xwindow.geom),
            ),
            old(self)@.master_ok() ==> final(self)@.master_ok(),
            old(self)@.sound() ==> final(self)@.sound(),
    {
        proof {
            self.windows.lemma_valid();
            if self@.master_ok() {
                lemma_toggle_master_ok(self@, screen.xwindow.geom);
            }
            if self@.sound() {
                lemma_toggle_sound(self@, screen.xwindow.geom);
            }
        }
        let master = self.master;
        // If we have a focused window
        if let Some(idx) = self.windows.focused_idx() {
            let ghost ring = self.windows@;
            let (win_id, was_floating) = match self.windows.get_mut(idx) {
                Some(win) => {
                    let was = (win.id(), win.is_floating());
                    win.toggle_state();
                    was
                },
                None => {
                    return
                },
            };
            proof {
                lemma_views_with_item(ring, idx as int, self.windows@.items[idx as int]);
            }
            if was_floating {
                //toggling to tiled
                // if we have no master
                if self.is_tiling() && master.is_none() {
                    self.promote(idx);
                }
            } else {
                //toggling to floating
                // keep floating windows on top
                conn.stack_above(win_id);

                if self.is_tiling() {
                    if self.tiled_count() == 0 {
                        // if master is the only window
                        self.unset_master();
                    } else if self.is_master(win_id) {
                        // if window to toggle is master
                        self.elect();
                    }
                }
            }
            self.relayout(conn, screen);
        }
    }

    /// Takes the focused client out of the workspace and hands it over.
    pub fn take_focused_window(&mut self, conn: &mut XConn, screen: &Screen) -> (window: Option<
        Client,
    >)
        ensures
            match old(self)@.focus {
                Some(f) => {
                    &&& window matches Some(client)
                    &&& client@ == old(self)@.clients[f]
                    &&& final(self)@ == old(self)@.del_window(f, screen.xwindow.geom)
                    &&& final(conn).extends(
                        old(conn),
                        old(self)@.del_window_requests(f, screen.xwindow.geom),
                    )
                },
                None => {
                    &&& window is None
                    &&& final(self)@ == old(self)@
                    &&& final(conn).extends(old(conn), Seq::empty())
                },
            },
            old(self)@.master_ok() ==> final(self)@.master_ok(),
            old(self)@.sound() ==> final(self)@.sound() && (window matches Some(client) ==> !has_id(
                final(self)@.clients,
                client@.id,
            )),
    {
        proof {
            self.windows.lemma_valid();
        }
        if let Some(idx) = self.windows.focused_idx() {
            let id = match self.windows.get(idx) {
                Some(window) => window.id(),
                None => {
                    return None
                },
            };
            Some(self.del_window(conn, screen, id, idx))
        } else {
            None
        }
    }

    /// Gives the focus to a window of the workspace. Nothing happens where
    /// the workspace does not hold the window.
    pub fn focus_window(&mut self, conn: &mut XConn, _screen: &Screen, id: XWindowID)
        ensures
            final(self)@ == old(self)@.focus_window(id),
            final(conn).extends(old(conn), old(self)@.focus_requests(id)),
            old(self)@.sound() ==> final(self)@.sound(),
    {
        proof {
            if self@.sound() {
                lemma_focus_window_sound(self@, id);
            }
        }
        match self.layout {
            LayoutType::Floating => floating::window_focus(conn, self, id),
            _ => dtiled::window_focus(conn, self, id),
        }
    }

    /// Moves the focus one client on.
    pub fn cycle_focus(&mut self, conn: &mut XConn, direction: Direction)
        ensures
            final(self)@ == old(self)@.cycle_focus(direction),
            final(conn).extends(old(conn), old(self)@.cycle_focus_requests(direction)),
            old(self)@.sound() ==> final(self)@.sound(),
    {
        proof {
            if self@.sound() {
                lemma_cycle_focus_sound(self@, direction);
            }
        }
        crate::layout::cycle_focus(conn, self, direction)
    }

    /// Lays the clients out on the screen.
    pub fn relayout(&mut self, conn: &mut XConn, scr: &Screen)
        ensures
            final(self)@ == old(self)@.relayout(scr.xwindow.geom),
            final(conn).extends(old(conn), old(self)@.relayout_requests(scr.xwindow.geom)),
            old(self)@.sound() ==> final(self)@.sound(),
            old(self)@.is_tiling() && tileable(scr.xwindow.geom) ==> arranged(
                final(self)@.clients,
                scr.xwindow.geom,
            ),
    {
        proof {
            if self@.sound() {
                lemma_relayout_sound(self@, scr.xwindow.geom);
            }
        }
        match self.layout {
            LayoutType::Floating => floating::relayout(conn, self, scr),
            _ => dtiled::relayout(conn, self, scr),
        }
    }

    /// Moves the window of the client at `idx` by `(dx, dy)`. A tiled
    /// window leaves the tiling.
    pub fn drag_move(&mut self, conn: &mut XConn, screen: &Screen, idx: usize, dx: i32, dy: i32)
        ensures
            final(self)@ == old(self)@.drag_move(idx as int, dx, dy, screen.xwindow.geom),
            final(conn).extends(
                old(conn),
                old(self)@.drag_move_requests(idx as int, dx, dy, screen.xwindow.geom),
            ),
            old(self)@.sound() ==> final(self)@.sound(),
    {
        proof {
            if self@.sound() {
                lemma_drag_sound(self@, idx as int, dx, dy, screen.xwindow.geom);
            }
        }
        let ghost ring = self.windows@;
        let tiled = match self.windows.get_mut(idx) {
            Some(win) => {
                let x = win.x() as i64 + dx as i64;
                let y = win.y() as i64 + dy as i64;
                if i32::MIN as i64 <= x && x <= i32::MAX as i64 && i32::MIN as i64 <= y && y
                    <= i32::MAX as i64 {
                    win.do_move(conn, dx, dy);
                    win.is_tiled()
                } else {
                    false
                }
            },
            None => false,
        };
        proof {
            if idx < ring.items.len() {
                lemma_views_with_item(ring, idx as int, self.windows@.items[idx as int]);
            }
        }
        if tiled {
            self.toggle_focused_state(conn, screen);
            self.relayout(conn, screen);
        }
        assert(self@ == old(self)@.drag_move(idx as int, dx, dy, screen.xwindow.geom));
    }

    /// Makes the window of the client at `idx` larger by `(dx, dy)`. A
    /// tiled window leaves the tiling.
    pub fn drag_resize(&mut self, conn: &mut XConn, screen: &Screen, idx: usize, dx: i32, dy: i32)
        ensures
            final(self)@ == old(self)@.drag_resize(idx as int, dx, dy, screen.xwindow.geom),
            final(conn).extends(
                old(conn),
                old(self)@.drag_resize_requests(idx as int, dx, dy, screen.xwindow.geom),
            ),
            old(self)@.sound() ==> final(self)@.sound(),
    {
        proof {
            if self@.sound() {
                lemma_drag_sound(self@, idx as int, dx, dy, screen.xwindow.geom);
            }
        }
        let ghost ring = self.windows@;
        let tiled = match self.windows.get_mut(idx) {
            Some(win) => {
                let width = win.width() as i64 + dx as i64;
                let height = win.height() as i64 + dy as i64;
                if i32::MIN as i64 <= width && width <= i32::MAX as i64 && i32::MIN as i64
                    <= height && height <= i32::MAX as i64 {
                    win.do_resize(conn, dx, dy);
                    win.is_tiled()
                } else {
                    false
                }
            },
            None => false,
        };
        proof {
            if idx < ring.items.len() {
                lemma_views_with_item(ring, idx as int, self.windows@.items[idx as int]);
            }
        }
        if tiled {
            self.toggle_focused_state(conn, screen);
            self.relayout(conn, screen);
        }
        assert(self@ == old(self)@.drag_resize(idx as int, dx, dy, screen.xwindow.geom));
    }
}

impl std::ops::Index<usize> for Workspace {
    type Output = Client;

    /// The client at `idx`, which must exist.
    fn index(&self, idx: usize) -> (client: &Client)
        ensures
            client@ == self@.clients[idx as int],
    {
        match self.windows.get(idx) {
            Some(client) => client,
            None => vstd::pervasive::unreached(),
        }
    }
}

impl vstd::std_specs::core::IndexSpecImpl<usize> for Workspace {
    open spec fn index_req(&self, index: &usize) -> bool {
        *index < self@.clients.len()
    }
}

} // verus!
