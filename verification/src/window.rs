//! The record that the window manager keeps of each window it manages, and
//! the ring of such records.
use vstd::prelude::*;
use std::collections::HashSet;
use crate::config::{BORDER_FOCUSED, BORDER_UNFOCUSED, BORDER_URGENT};
use crate::ring::{Ring, RingView, Selector};
use crate::types::{BorderStyle, Geometry, SizeHints, WinLayoutState, WindowState, XWinProperties};
use crate::x::base::{Atom, XWindow, XWindowID};
use crate::x::xserver::{XConn, XRequest};

verus! {

pub const WIN_HEIGHT_MIN: i32 = 100;

pub const WIN_WIDTH_MIN: i32 = 100;

pub const MIN_ONSCREEN: i32 = 20;

/// Brings a value back into `min..=max`: up to `min` where it is below,
/// and else down to `max` where it is above.
pub fn ensure_in_bounds(val: &mut i32, min: i32, max: i32)
    ensures
        *final(val) == (if *old(val) < min {
            min
        } else if *old(val) > max {
            max
        } else {
            *old(val)
        }),
{
    if *val < min {
        *val = min;
    } else if *val > max {
        *val = max;
    }
}

/// What a client record says.
#[verifier::ext_equal]
pub struct ClientView {
    /// The handle of the window.
    pub id: XWindowID,
    /// Where the window is and how large.
    pub geom: Geometry,
    pub name: Seq<char>,
    pub icon_name: Seq<char>,
    /// The geometry that the client asked for, kept for when it floats.
    pub initial_geom: Geometry,
    pub urgent: bool,
    pub mapped_state: WindowState,
    pub layout_state: WinLayoutState,
    /// The protocols that the client takes part in.
    pub protocols: Set<Atom>,
}

impl ClientView {
    pub open spec fn is_tiled(self) -> bool {
        self.layout_state == WinLayoutState::Tiled
    }

    pub open spec fn is_floating(self) -> bool {
        self.layout_state == WinLayoutState::Floating
    }

    /// The record of a window that was just taken under management.
    pub open spec fn fresh(id: XWindowID, properties: XWinProperties, layout: WinLayoutState) -> Self {
        ClientView {
            id,
            geom: Geometry { x: 0, y: 0, width: 0, height: 0 },
            name: properties.wm_name@,
            icon_name: properties.wm_icon_name@,
            initial_geom: Geometry::fallback(),
            urgent: false,
            mapped_state: WindowState::Normal,
            layout_state: layout,
            protocols: Set::empty(),
        }
    }

    pub open spec fn with_geometry(self, geom: Geometry) -> Self {
        ClientView { geom, ..self }
    }

    pub open spec fn with_layout_state(self, layout_state: WinLayoutState) -> Self {
        ClientView { layout_state, ..self }
    }

    /// The record after the window grew by `(dx, dy)`.
    pub open spec fn resized(self, dx: i32, dy: i32) -> Self {
        self.with_geometry(
            Geometry {
                width: (self.geom.width + dx) as i32,
                height: (self.geom.height + dy) as i32,
                ..self.geom
            },
        )
    }

    /// The record after the window moved by `(dx, dy)`.
    pub open spec fn moved(self, dx: i32, dy: i32) -> Self {
        self.with_geometry(
            Geometry { x: (self.geom.x + dx) as i32, y: (self.geom.y + dy) as i32, ..self.geom },
        )
    }

    /// The protocols of the record and those of the list together.
    pub open spec fn supporting(self, protocols: Option<Vec<Atom>>) -> Self {
        match protocols {
            Some(list) => ClientView { protocols: self.protocols.union(list@.to_set()), ..self },
            None => self,
        }
    }

    /// The geometry that size hints ask for: the position they give, or
    /// the origin; the first number of the size as height, or 100; the
    /// second as width, or 160. Without hints, 100 wide and 160 high at the
    /// origin.
    pub open spec fn hinted_geometry(hints: Option<SizeHints>) -> Geometry {
        match hints {
            Some(sizes) => Geometry {
                x: match sizes.position {
                    Some(pos) => pos.0,
                    None => 0,
                },
                y: match sizes.position {
                    Some(pos) => pos.1,
                    None => 0,
                },
                height: match sizes.size {
                    Some(dim) => dim.0,
                    None => 100,
                },
                width: match sizes.size {
                    Some(dim) => dim.1,
                    None => 160,
                },
            },
            None => Geometry { x: 0, y: 0, width: 100, height: 160 },
        }
    }

    /// The record after the client's properties were read again. The
    /// initial geometry is taken only while it is all zero, and the
    /// protocols only while none is known.
    pub open spec fn refreshed(self, properties: XWinProperties) -> Self {
        ClientView {
            name: properties.wm_name@,
            icon_name: properties.wm_icon_name@,
            initial_geom: if self.initial_geom == (Geometry { x: 0, y: 0, width: 0, height: 0 }) {
                Self::hinted_geometry(properties.wm_size_hints)
            } else {
                self.initial_geom
            },
            urgent: match properties.wm_hints {
                Some(hints) => hints.urgent,
                None => false,
            },
            mapped_state: match properties.wm_hints {
                Some(hints) => hints.state,
                None => WindowState::Normal,
            },
            protocols: if self.protocols =~= Set::empty() {
                self.supporting(properties.wm_protocols).protocols
            } else {
                self.protocols
            },
            ..self
        }
    }
}

/// The colour of a border of the given style.
pub open spec fn border_color(border: BorderStyle) -> u32 {
    match border {
        BorderStyle::Focused => BORDER_FOCUSED,
        BorderStyle::Unfocused => BORDER_UNFOCUSED,
        BorderStyle::Urgent => BORDER_URGENT,
    }
}

/// `HashSet::clone`: a set with the same elements.
#[verifier::external_body]
fn clone_protocols(protocols: &HashSet<Atom>) -> (copy: HashSet<Atom>)
    ensures
        copy@ == protocols@,
{
    protocols.clone()
}

/// What the window manager knows of one window that it manages.
#[derive(Debug)]
pub struct Client {
    pub xwindow: XWindow,
    pub name: String,
    pub icon_name: String,
    initial_geom: Geometry,
    urgent: bool,
    mapped_state: WindowState,
    layout_state: WinLayoutState,
    protocols: HashSet<Atom>,
}

impl View for Client {
    type V = ClientView;

    closed spec fn view(&self) -> ClientView {
        ClientView {
            id: self.xwindow.id,
            geom: self.xwindow.geom,
            name: self.name@,
            icon_name: self.icon_name@,
            initial_geom: self.initial_geom,
            urgent: self.urgent,
            mapped_state: self.mapped_state,
            layout_state: self.layout_state,
            protocols: self.protocols@,
        }
    }
}

impl Clone for Client {
    /// A record that says the same.
    fn clone(&self) -> (copy: Self)
        ensures
            copy@ == self@,
    {
        Self {
            xwindow: self.xwindow,
            name: self.name.clone(),
            icon_name: self.icon_name.clone(),
            initial_geom: self.initial_geom,
            urgent: self.urgent,
            mapped_state: self.mapped_state,
            layout_state: self.layout_state,
            protocols: clone_protocols(&self.protocols),
        }
    }
}

impl PartialEq for Client {
    /// Two records are equal where they are about the same window.
    fn eq(&self, other: &Self) -> (b: bool) {
        self.xwindow.id == other.xwindow.id
    }
}

impl vstd::std_specs::cmp::PartialEqSpecImpl for Client {
    open spec fn obeys_eq_spec() -> bool {
        true
    }

    open spec fn eq_spec(&self, other: &Self) -> bool {
        self@.id == other@.id
    }
}

impl Client {
    /// The record of a new window that takes part in the tiling.
    pub fn tiled(from: XWindowID, properties: &XWinProperties) -> (client: Self)
        ensures
            client@ == ClientView::fresh(from, *properties, WinLayoutState::Tiled),
    {
        Self::new(from, properties, WinLayoutState::Tiled)
    }

    /// The record of a new window that floats.
    pub fn floating(from: XWindowID, properties: &XWinProperties) -> (client: Self)
        ensures
            client@ == ClientView::fresh(from, *properties, WinLayoutState::Floating),
    {
        Self::new(from, properties, WinLayoutState::Floating)
    }

    fn new(from: XWindowID, properties: &XWinProperties, layout: WinLayoutState) -> (client: Self)
        ensures
            client@ == ClientView::fresh(from, *properties, layout),
    {
        Self {
            xwindow: XWindow::from(from),
            name: properties.wm_name().to_owned(),
            icon_name: properties.wm_icon_name().to_owned(),
            initial_geom: Geometry::default(),
            urgent: false,
            mapped_state: WindowState::Normal,
            layout_state: layout,
            protocols: HashSet::new(),
        }
    }

    #[inline]
    pub fn is_tiled(&self) -> (b: bool)
        ensures
            b == self@.is_tiled(),
    {
        if let WinLayoutState::Tiled = self.layout_state {
            return true
        }
        false
    }

    #[inline]
    pub fn is_floating(&self) -> (b: bool)
        ensures
            b == self@.is_floating(),
    {
        if let WinLayoutState::Floating = self.layout_state {
            return true
        }
        false
    }

    #[inline]
    pub fn set_tiled(&mut self)
        ensures
            final(self)@ == old(self)@.with_layout_state(WinLayoutState::Tiled),
    {
        self.layout_state = WinLayoutState::Tiled
    }

    #[inline]
    pub fn set_floating(&mut self)
        ensures
            final(self)@ == old(self)@.with_layout_state(WinLayoutState::Floating),
    {
        self.layout_state = WinLayoutState::Floating
    }

    /// Makes a tiled window float and a floating window tiled.
    #[inline]
    pub fn toggle_state(&mut self)
        ensures
            final(self)@ == old(self)@.with_layout_state(old(self)@.layout_state.toggled()),
    {
        if let WinLayoutState::Floating = self.layout_state {
            self.layout_state = WinLayoutState::Tiled
        } else if let WinLayoutState::Tiled = self.layout_state {
            self.layout_state = WinLayoutState::Floating
        }
    }

    #[inline(always)]
    pub fn id(&self) -> (id: XWindowID)
        ensures
            id == self@.id,
    {
        self.xwindow.id
    }

    #[inline(always)]
    pub fn x(&self) -> (x: i32)
        ensures
            x == self@.geom.x,
    {
        self.xwindow.geom.x
    }

    #[inline(always)]
    pub fn y(&self) -> (y: i32)
        ensures
            y == self@.geom.y,
    {
        self.xwindow.geom.y
    }

    #[inline(always)]
    pub fn height(&self) -> (height: i32)
        ensures
            height == self@.geom.height,
    {
        self.xwindow.geom.height
    }

    #[inline(always)]
    pub fn width(&self) -> (width: i32)
        ensures
            width == self@.geom.width,
    {
        self.xwindow.geom.width
    }

    /// The geometry of the window.
    pub fn geometry(&self) -> (geom: Geometry)
        ensures
            geom == self@.geom,
    {
        self.xwindow.geom
    }

    /// The geometry that the client asked for.
    pub fn initial_geom(&self) -> (geom: Geometry)
        ensures
            geom == self@.initial_geom,
    {
        self.initial_geom
    }

    pub fn is_urgent(&self) -> (b: bool)
        ensures
            b == self@.urgent,
    {
        self.urgent
    }

    pub fn mapped_state(&self) -> (state: WindowState)
        ensures
            state == self@.mapped_state,
    {
        self.mapped_state
    }

    fn hinted_geometry(hints: Option<SizeHints>) -> (geom: Geometry)
        ensures
            geom == ClientView::hinted_geometry(hints),
    {
        if let Some(sizes) = hints {
            Geometry {
                x: if let Some(pos) = sizes.position {
                    pos.0
                } else {
                    0
                },
                y: if let Some(pos) = sizes.position {
                    pos.1
                } else {
                    0
                },
                height: if let Some(dim) = sizes.size {
                    dim.0
                } else {
                    100
                },
                width: if let Some(dim) = sizes.size {
                    dim.1
                } else {
                    160
                },
            }
        } else {
            Geometry::from((0, 0, 100, 160))
        }
    }

    /// Takes over what the client's properties say now.
    pub fn update_properties(&mut self, properties: &XWinProperties)
        ensures
            final(self)@ == old(self)@.refreshed(*properties),
    {
        let initial_geom = Self::hinted_geometry(properties.wm_size_hints());
        self.name = properties.wm_name().to_owned();
        self.icon_name = properties.wm_icon_name().to_owned();

        let zero = Geometry::from((0, 0, 0, 0));
        if self.initial_geom.x == zero.x && self.initial_geom.y == zero.y && self.initial_geom.width
            == zero.width && self.initial_geom.height == zero.height {
            self.initial_geom = initial_geom;
        }
        self.urgent = if let Some(hints) = properties.wm_hints() {
            hints.urgent
        } else {
            false
        };
        self.mapped_state = if let Some(hints) = properties.wm_hints() {
            hints.state
        } else {
            WindowState::Normal
        };
        if self.protocols.is_empty() {
            self.set_supported(&properties.wm_protocols);
        }
    }

    pub fn set_initial_geom(&mut self, geom: Geometry)
        ensures
            final(self)@ == (ClientView { initial_geom: geom, ..old(self)@ }),
    {
        self.initial_geom = geom;
    }

    /// Asks for the window's border in the colour of the given style.
    pub fn set_border(&self, conn: &mut XConn, border: BorderStyle)
        ensures
            final(conn).extends(old(conn), seq![XRequest::BorderColor(self@.id, border_color(border))]),
    {
        match border {
            BorderStyle::Focused => {
                conn.set_border_color(self.id(), BORDER_FOCUSED);
            },
            BorderStyle::Unfocused => {
                conn.set_border_color(self.id(), BORDER_UNFOCUSED);
            },
            BorderStyle::Urgent => {
                conn.set_border_color(self.id(), BORDER_URGENT);
            },
        }
    }

    /// Asks for the window to be shown, and takes over its properties.
    pub fn map(&mut self, conn: &mut XConn, properties: &XWinProperties)
        ensures
            final(conn).extends(old(conn), seq![XRequest::MapWindow(old(self)@.id)]),
            final(self)@ == old(self)@.refreshed(*properties),
    {
        conn.map_window(self.id());
        self.update_properties(properties);
    }

    /// Asks for the window to be hidden.
    pub fn unmap(&self, conn: &mut XConn)
        ensures
            final(conn).extends(old(conn), seq![XRequest::UnmapWindow(self@.id)]),
    {
        conn.unmap_window(self.id());
    }

    /// Changes the size of the window by `(dx, dy)`, in the record and on
    /// the server. The size is not held to any bounds.
    pub fn do_resize(&mut self, conn: &mut XConn, dx: i32, dy: i32)
        requires
            i32::MIN <= old(self)@.geom.width + dx <= i32::MAX,
            i32::MIN <= old(self)@.geom.height + dy <= i32::MAX,
        ensures
            final(self)@ == old(self)@.resized(dx, dy),
            final(conn).extends(
                old(conn),
                seq![
                    XRequest::Resize(
                        old(self)@.id,
                        final(self)@.geom.width,
                        final(self)@.geom.height,
                    ),
                ],
            ),
    {
        self.xwindow.update_height(dy);
        self.xwindow.update_width(dx);

        conn.send(XRequest::Resize(self.xwindow.id, self.width(), self.height()));
    }

    /// Moves the window by `(dx, dy)`, in the record and on the server.
    /// The place is not held to any bounds.
    pub fn do_move(&mut self, conn: &mut XConn, dx: i32, dy: i32)
        requires
            i32::MIN <= old(self)@.geom.x + dx <= i32::MAX,
            i32::MIN <= old(self)@.geom.y + dy <= i32::MAX,
        ensures
            final(self)@ == old(self)@.moved(dx, dy),
            final(conn).extends(
                old(conn),
                seq![XRequest::Move(old(self)@.id, final(self)@.geom.x, final(self)@.geom.y)],
            ),
    {
        self.xwindow.update_pos_y(dy);
        self.xwindow.update_pos_x(dx);

        conn.send(XRequest::Move(self.xwindow.id, self.x(), self.y()));
    }

    /// Sets the geometry in the record; the server is not told.
    pub fn set_geometry(&mut self, geom: Geometry)
        ensures
            final(self)@ == old(self)@.with_geometry(geom),
    {
        self.xwindow.set_geometry(geom);
    }

    /// Asks the server to give the window the geometry of the record.
    ///
    /// Normally called after `Client::set_geometry`.
    pub fn update_geometry(&self, conn: &mut XConn)
        ensures
            final(conn).extends(old(conn), XConn::geometry_requests(self@.id, self@.geom)),
    {
        conn.set_geometry(self.xwindow.id, self.xwindow.geom)
    }

    /// Sets the geometry in the record and on the server.
    pub fn set_and_update_geometry(&mut self, conn: &mut XConn, geom: Geometry)
        ensures
            final(self)@ == old(self)@.with_geometry(geom),
            final(conn).extends(old(conn), XConn::geometry_requests(old(self)@.id, geom)),
    {
        self.set_geometry(geom);
        self.update_geometry(conn);
    }

    /// Adds the protocols of the list to those of the client.
    pub fn set_supported(&mut self, protocols: &Option<Vec<Atom>>)
        ensures
            final(self)@ == old(self)@.supporting(*protocols),
    {
        if let Some(protocols) = protocols {
            let ghost before = self.protocols@;
            let mut i: usize = 0;
            while i < protocols.len()
                invariant
                    i <= protocols@.len(),
                    self.xwindow == old(self).xwindow,
                    self.name == old(self).name,
                    self.icon_name == old(self).icon_name,
                    self.initial_geom == old(self).initial_geom,
                    self.urgent == old(self).urgent,
                    self.mapped_state == old(self).mapped_state,
                    self.layout_state == old(self).layout_state,
                    before == old(self).protocols@,
                    self.protocols@ =~= before.union(protocols@.subrange(0, i as int).to_set()),
                decreases protocols@.len() - i,
            {
                let ghost seen = protocols@.subrange(0, i as int);
                self.protocols.insert(protocols[i]);
                proof {
                    let next = protocols@.subrange(0, i + 1);
                    assert(next =~= seen.push(protocols@[i as int]));
                    assert forall|a: Atom|
                        next.to_set().contains(a) <==> seen.to_set().contains(a) || a
                            == protocols@[i as int] by {
                        if seen.to_set().contains(a) {
                            let j = choose|j: int| 0 <= j < seen.len() && seen[j] == a;
                            assert(next[j] == a);
                        }
                        if a == protocols@[i as int] {
                            assert(next[i as int] == a);
                        }
                    }
                }
                i += 1;
            }
            assert(protocols@.subrange(0, i as int) =~= protocols@);
        }
    }

    /// Does the client take part in this protocol?
    pub fn supports(&self, prtcl: Atom) -> (b: bool)
        ensures
            b == self@.protocols.contains(prtcl),
    {
        self.protocols.contains(&prtcl)
    }
}

/// A ring of clients.
pub type ClientRing = Ring<Client>;

/// What each of the clients says, in their order.
pub open spec fn views(clients: Seq<Client>) -> Seq<ClientView> {
    Seq::new(clients.len(), |i: int| clients[i]@)
}

/// An index as a number.
pub open spec fn as_index(r: Option<usize>) -> Option<int> {
    match r {
        Some(i) => Some(i as int),
        None => None,
    }
}

/// The index of the first client with the handle `id`.
pub open spec fn index_of(clients: Seq<ClientView>, id: XWindowID) -> Option<int>
    decreases clients.len(),
{
    if clients.len() == 0 {
        None
    } else if clients[0].id == id {
        Some(0)
    } else {
        match index_of(clients.drop_first(), id) {
            Some(i) => Some(i + 1),
            None => None,
        }
    }
}

/// Whether some client has the handle `id`.
pub open spec fn has_id(clients: Seq<ClientView>, id: XWindowID) -> bool {
    index_of(clients, id) is Some
}

/// `index_of` gives the first index at which the handle stands, and `None`
/// only where it stands nowhere.
pub proof fn lemma_index_of(clients: Seq<ClientView>, id: XWindowID)
    ensures
        match index_of(clients, id) {
            Some(i) => {
                &&& 0 <= i < clients.len()
                &&& clients[i].id == id
                &&& forall|j: int| 0 <= j < i ==> (#[trigger] clients[j]).id != id
            },
            None => forall|j: int| 0 <= j < clients.len() ==> (#[trigger] clients[j]).id != id,
        },
    decreases clients.len(),
{
    if clients.len() > 0 && clients[0].id != id {
        let rest = clients.drop_first();
        lemma_index_of(rest, id);
        assert forall|j: int| 0 < j < clients.len() implies clients[j] == rest[j - 1] by {}
        match index_of(rest, id) {
            Some(i) => {
                assert forall|j: int| 0 <= j < i + 1 implies (#[trigger] clients[j]).id != id by {
                    if j > 0 {
                        assert(rest[j - 1].id != id);
                    }
                }
            },
            None => {
                assert forall|j: int| 0 <= j < clients.len() implies (#[trigger] clients[j]).id
                    != id by {
                    if j > 0 {
                        assert(rest[j - 1].id != id);
                    }
                }
            },
        }
    }
}

/// An index at which the handle stands, with no earlier one, is what
/// `index_of` gives; and so is `None` where the handle stands nowhere.
pub proof fn lemma_index_of_is(clients: Seq<ClientView>, id: XWindowID, r: Option<int>)
    requires
        match r {
            Some(i) => {
                &&& 0 <= i < clients.len()
                &&& clients[i].id == id
                &&& forall|j: int| 0 <= j < i ==> (#[trigger] clients[j]).id != id
            },
            None => forall|j: int| 0 <= j < clients.len() ==> (#[trigger] clients[j]).id != id,
        },
    ensures
        index_of(clients, id) == r,
{
    lemma_index_of(clients, id);
    match (r, index_of(clients, id)) {
        (Some(i), Some(k)) => {
            if i < k {
                assert(clients[i].id != id);
            } else if k < i {
                assert(clients[k].id != id);
            }
        },
        (Some(i), None) => {
            assert(clients[i].id != id);
        },
        (None, Some(k)) => {
            assert(clients[k].id != id);
        },
        (None, None) => {},
    }
}

/// No two clients share a handle.
pub open spec fn distinct(clients: Seq<ClientView>) -> bool {
    forall|i: int, j: int|
        0 <= i < j < clients.len() ==> (#[trigger] clients[i]).id != (#[trigger] clients[j]).id
}

/// No handle of the one sequence of clients stands in the other.
pub open spec fn apart(a: Seq<ClientView>, b: Seq<ClientView>) -> bool {
    forall|i: int, j: int|
        0 <= i < a.len() && 0 <= j < b.len() ==> (#[trigger] a[i]).id != (#[trigger] b[j]).id
}

/// Every handle of the one sequence of clients stands in the other.
pub open spec fn within(a: Seq<ClientView>, b: Seq<ClientView>) -> bool {
    forall|i: int| 0 <= i < a.len() ==> has_id(b, (#[trigger] a[i]).id)
}

/// The handle of a client stands where the client stands.
pub proof fn lemma_has_id_at(clients: Seq<ClientView>, j: int)
    requires
        0 <= j < clients.len(),
    ensures
        has_id(clients, clients[j].id),
{
    lemma_index_of(clients, clients[j].id);
}

/// What stands within a sequence that stands within a third stands within
/// the third.
pub proof fn lemma_within_trans(a: Seq<ClientView>, b: Seq<ClientView>, c: Seq<ClientView>)
    requires
        within(a, b),
        within(b, c),
    ensures
        within(a, c),
{
    assert forall|i: int| 0 <= i < a.len() implies has_id(c, (#[trigger] a[i]).id) by {
        lemma_index_of(b, a[i].id);
        let k = index_of(b, a[i].id)->0;
        assert(has_id(c, b[k].id));
    }
}

/// What stands within a sequence shares no handle with what that sequence
/// shares none with.
pub proof fn lemma_within_apart(a: Seq<ClientView>, b: Seq<ClientView>, c: Seq<ClientView>)
    requires
        within(a, b),
        apart(b, c),
    ensures
        apart(a, c),
        apart(c, a),
{
    assert forall|i: int, j: int| 0 <= i < a.len() && 0 <= j < c.len() implies (#[trigger] a[i]).id
        != (#[trigger] c[j]).id by {
        lemma_index_of(b, a[i].id);
        let k = index_of(b, a[i].id)->0;
        assert(b[k].id != c[j].id);
    }
}

/// Two sequences that hold the same handles in the same places stand
/// within each other, and where no two clients of the one share a handle,
/// no two of the other do.
pub proof fn lemma_same_handles(a: Seq<ClientView>, b: Seq<ClientView>)
    requires
        a.len() == b.len(),
        forall|i: int| 0 <= i < a.len() ==> (#[trigger] a[i]).id == b[i].id,
    ensures
        within(a, b),
        within(b, a),
        distinct(a) ==> distinct(b),
{
    assert forall|i: int| 0 <= i < a.len() implies has_id(b, (#[trigger] a[i]).id) by {
        lemma_has_id_at(b, i);
    }
    assert forall|i: int| 0 <= i < b.len() implies has_id(a, (#[trigger] b[i]).id) by {
        assert(a[i].id == b[i].id);
        lemma_has_id_at(a, i);
    }
    if distinct(a) {
        assert forall|i: int, j: int| 0 <= i < j < b.len() implies (#[trigger] b[i]).id != (
        #[trigger] b[j]).id by {
            assert(a[i].id == b[i].id);
            assert(a[j].id == b[j].id);
        }
    }
}

/// Two clients that change places bring no handle in, and none twice.
pub proof fn lemma_distinct_swap(clients: Seq<ClientView>, idx: int)
    requires
        0 <= idx < clients.len(),
    ensures
        within(clients.update(0, clients[idx]).update(idx, clients[0]), clients),
        distinct(clients) ==> distinct(clients.update(0, clients[idx]).update(idx, clients[0])),
{
    let swapped = clients.update(0, clients[idx]).update(idx, clients[0]);
    assert forall|i: int| 0 <= i < swapped.len() implies has_id(clients, (#[trigger] swapped[i]).id) by {
        if i == 0 {
            lemma_has_id_at(clients, idx);
        } else if i == idx {
            lemma_has_id_at(clients, 0);
        } else {
            lemma_has_id_at(clients, i);
        }
    }
    if distinct(clients) {
        assert forall|i: int, j: int| 0 <= i < j < swapped.len() implies (#[trigger] swapped[i]).id
            != (#[trigger] swapped[j]).id by {
            let from = |k: int| if k == 0 { idx } else if k == idx { 0 } else { k };
            assert(swapped[i] == clients[from(i)]);
            assert(swapped[j] == clients[from(j)]);
            assert(from(i) != from(j));
            if from(i) < from(j) {
                assert(clients[from(i)].id != clients[from(j)].id);
            } else {
                assert(clients[from(j)].id != clients[from(i)].id);
            }
        }
    }
}

/// A client that leaves takes its handle with it where no two clients
/// share a handle, and brings no handle in.
pub proof fn lemma_distinct_remove(clients: Seq<ClientView>, idx: int)
    requires
        0 <= idx < clients.len(),
    ensures
        within(clients.remove(idx), clients),
        distinct(clients) ==> distinct(clients.remove(idx)) && !has_id(
            clients.remove(idx),
            clients[idx].id,
        ),
{
    let left = clients.remove(idx);
    assert forall|i: int| 0 <= i < left.len() implies left[i] == clients[if i < idx {
        i
    } else {
        i + 1
    }] by {}
    assert forall|i: int| 0 <= i < left.len() implies has_id(clients, (#[trigger] left[i]).id) by {
        lemma_has_id_at(
            clients,
            if i < idx {
                i
            } else {
                i + 1
            },
        );
    }
    if distinct(clients) {
        assert forall|i: int, j: int| 0 <= i < j < left.len() implies (#[trigger] left[i]).id != (
        #[trigger] left[j]).id by {
            let a = if i < idx { i } else { i + 1 };
            let b = if j < idx { j } else { j + 1 };
            assert(clients[a].id != clients[b].id);
        }
        assert forall|i: int| 0 <= i < left.len() implies (#[trigger] left[i]).id
            != clients[idx].id by {
            let a = if i < idx { i } else { i + 1 };
            if a < idx {
                assert(clients[a].id != clients[idx].id);
            } else {
                assert(clients[idx].id != clients[a].id);
            }
        }
        lemma_index_of_is(left, clients[idx].id, None);
    }
}

/// A client that joins brings its own handle in and no other, and where
/// its handle is new and no two clients share a handle, none do
/// afterwards.
pub proof fn lemma_distinct_insert(clients: Seq<ClientView>, at: int, client: ClientView)
    requires
        0 <= at <= clients.len(),
    ensures
        has_id(clients.insert(at, client), client.id),
        within(clients, clients.insert(at, client)),
        forall|i: int|
            0 <= i <= clients.len() ==> (#[trigger] clients.insert(at, client)[i]).id == client.id
                || has_id(clients, clients.insert(at, client)[i].id),
        distinct(clients) && !has_id(clients, client.id) ==> distinct(clients.insert(at, client)),
{
    let joined = clients.insert(at, client);
    assert(joined[at] == client);
    assert forall|i: int| 0 <= i < joined.len() && i != at implies joined[i] == clients[if i < at {
        i
    } else {
        i - 1
    }] by {}
    lemma_has_id_at(joined, at);
    assert forall|i: int| 0 <= i < clients.len() implies has_id(joined, (#[trigger] clients[i]).id) by {
        let a = if i < at { i } else { i + 1 };
        assert(joined[a] == clients[i]);
        lemma_has_id_at(joined, a);
    }
    assert forall|i: int| 0 <= i <= clients.len() implies (#[trigger] joined[i]).id == client.id
        || has_id(clients, joined[i].id) by {
        if i != at {
            lemma_has_id_at(
                clients,
                if i < at {
                    i
                } else {
                    i - 1
                },
            );
        }
    }
    if distinct(clients) && !has_id(clients, client.id) {
        lemma_index_of(clients, client.id);
        assert forall|i: int, j: int| 0 <= i < j < joined.len() implies (#[trigger] joined[i]).id
            != (#[trigger] joined[j]).id by {
            let a = if i < at { i } else { i - 1 };
            let b = if j < at { j } else { j - 1 };
            if i == at {
                assert(clients[b].id != client.id);
            } else if j == at {
                assert(clients[a].id != client.id);
            } else {
                assert(clients[a].id != clients[b].id);
            }
        }
    }
}

/// Whether a sequence of clients holds no window that another did not
/// hold, and no handle twice unless the other did.
pub open spec fn kept(after: Seq<ClientView>, before: Seq<ClientView>) -> bool {
    &&& within(after, before)
    &&& distinct(before) ==> distinct(after)
}

/// Whether a sequence of clients holds no window that another did not
/// hold, but for the window `id`; and no handle twice, unless the other
/// did or held `id` already.
pub open spec fn joined(after: Seq<ClientView>, before: Seq<ClientView>, id: XWindowID) -> bool {
    &&& forall|i: int|
        0 <= i < after.len() ==> (#[trigger] after[i]).id == id || has_id(before, after[i].id)
    &&& distinct(before) && !has_id(before, id) ==> distinct(after)
}

/// A handle that a sequence of clients lacks is lacking in every sequence
/// that stands within it.
pub proof fn lemma_within_gone(a: Seq<ClientView>, b: Seq<ClientView>, id: XWindowID)
    requires
        within(a, b),
        !has_id(b, id),
    ensures
        !has_id(a, id),
{
    lemma_index_of(a, id);
    if let Some(i) = index_of(a, id) {
        assert(has_id(b, a[i].id));
    }
}

/// What was kept of what was kept was kept.
pub proof fn lemma_kept_trans(a: Seq<ClientView>, b: Seq<ClientView>, c: Seq<ClientView>)
    requires
        kept(a, b),
        kept(b, c),
    ensures
        kept(a, c),
{
    lemma_within_trans(a, b, c);
}

/// What was kept of what a window joined holds no other new window.
pub proof fn lemma_kept_joined(
    a: Seq<ClientView>,
    b: Seq<ClientView>,
    c: Seq<ClientView>,
    id: XWindowID,
)
    requires
        kept(a, b),
        joined(b, c, id),
    ensures
        joined(a, c, id),
{
    assert forall|i: int| 0 <= i < a.len() implies (#[trigger] a[i]).id == id || has_id(
        c,
        a[i].id,
    ) by {
        lemma_index_of(b, a[i].id);
        let k = index_of(b, a[i].id)->0;
        assert(b[k].id == id || has_id(c, b[k].id));
    }
}

/// A sequence of clients keeps itself, and keeps what holds the same
/// handles in the same places.
pub proof fn lemma_kept_same(a: Seq<ClientView>, b: Seq<ClientView>)
    requires
        a.len() == b.len(),
        forall|i: int| 0 <= i < a.len() ==> (#[trigger] a[i]).id == b[i].id,
    ensures
        kept(a, b),
        kept(b, a),
{
    lemma_same_handles(a, b);
    assert forall|i: int| 0 <= i < b.len() implies (#[trigger] b[i]).id == a[i].id by {
        assert(a[i].id == b[i].id);
    }
    lemma_same_handles(b, a);
}

/// A ring of clients as a ring of what the clients say.
pub open spec fn ring_views(ring: RingView<Client>) -> RingView<ClientView> {
    RingView { items: views(ring.items), focus: ring.focus }
}

/// What the clients say moves with the clients when one of them enters
/// the ring.
pub proof fn lemma_views_insert(ring: RingView<Client>, at: int, client: Client)
    requires
        0 <= at <= ring.items.len(),
    ensures
        ring_views(ring.insert_at(at, client)) == ring_views(ring).insert_at(at, client@),
{
    assert(views(ring.items.insert(at, client)) =~= views(ring.items).insert(at, client@));
}

/// What the clients say moves with the clients when one of them leaves
/// the ring.
pub proof fn lemma_views_remove(ring: RingView<Client>, idx: int)
    ensures
        ring_views(ring.remove(idx)) == ring_views(ring).remove(idx),
{
    if 0 <= idx < ring.items.len() {
        assert(views(ring.items.remove(idx)) =~= views(ring.items).remove(idx));
    }
}

/// What the clients say moves with the clients when two of them change
/// places.
pub proof fn lemma_views_move_front(ring: RingView<Client>, idx: int)
    requires
        0 <= idx < ring.items.len(),
    ensures
        ring_views(ring.move_front(idx)) == ring_views(ring).move_front(idx),
{
    assert(views(ring.move_front(idx).items) =~= ring_views(ring).move_front(idx).items);
}

/// A client that is replaced says what its replacement says.
pub proof fn lemma_views_with_item(ring: RingView<Client>, idx: int, client: Client)
    requires
        0 <= idx < ring.items.len(),
    ensures
        ring_views(ring.with_item(idx, client)) == ring_views(ring).with_item(idx, client@),
{
    assert(views(ring.items.update(idx, client)) =~= views(ring.items).update(idx, client@));
}

impl Ring<Client> {
    /// Takes the first client with the given handle out of the ring.
    pub fn remove_by_id(&mut self, id: XWindowID) -> (removed: Option<Client>)
        ensures
            match index_of(views(old(self)@.items), id) {
                Some(i) => removed == Some(old(self)@.items[i]) && final(self)@ == old(self)@.remove(i),
                None => removed is None && final(self)@ == old(self)@,
            },
    {
        proof {
            lemma_index_of(views(self@.items), id);
        }
        if let Some(i) = self.get_idx(id) {
            self.remove(i)
        } else {
            None
        }
    }

    /// The index of the first client with the given handle.
    pub fn get_idx(&self, id: XWindowID) -> (r: Option<usize>)
        ensures
            as_index(r) == index_of(views(self@.items), id),
            r matches Some(i) ==> i < self@.items.len(),
    {
        let same_window = |win: &Client| -> (b: bool)
            ensures
                b == (win@.id == id),
            { win.id() == id };
        let r = self.index(Selector::Condition(same_window));
        proof {
            let clients = views(self@.items);
            match r {
                Some(i) => {
                    assert forall|j: int| 0 <= j < i implies (#[trigger] clients[j]).id != id by {
                        assert(call_ensures(same_window, (&self@.items[j],), false));
                    }
                },
                None => {
                    assert forall|j: int| 0 <= j < clients.len() implies (#[trigger] clients[j]).id
                        != id by {
                        assert(call_ensures(same_window, (&self@.items[j],), false));
                    }
                },
            }
            lemma_index_of_is(clients, id, as_index(r));
        }
        r
    }

    /// The first client with the given handle.
    pub fn lookup(&self, id: XWindowID) -> (r: Option<&Client>)
        ensures
            match index_of(views(self@.items), id) {
                Some(i) => r == Some(&self@.items[i]),
                None => r is None,
            },
    {
        proof {
            lemma_index_of(views(self@.items), id);
        }
        if let Some(i) = self.get_idx(id) {
            self.get(i)
        } else {
            None
        }
    }

    /// The first client with the given handle, open to change.
    pub fn lookup_mut(&mut self, id: XWindowID) -> (r: Option<&mut Client>)
        ensures
            match index_of(views(old(self)@.items), id) {
                Some(i) => r matches Some(client) && *client == old(self)@.items[i] && final(self)@
                    == old(self)@.with_item(i, *final(client)),
                None => r is None && final(self)@ == old(self)@,
            },
    {
        proof {
            lemma_index_of(views(self@.items), id);
        }
        if let Some(i) = self.get_idx(id) {
            self.get_mut(i)
        } else {
            None
        }
    }

    /// Whether a client with the given handle is in the ring.
    pub fn contains(&self, id: XWindowID) -> (b: bool)
        ensures
            b == has_id(views(self@.items), id),
    {
        let mut i: usize = 0;
        while i < self.len()
            invariant
                forall|j: int| 0 <= j < i ==> (#[trigger] views(self@.items)[j]).id != id,
            decreases self@.items.len() - i,
        {
            if let Some(win) = self.get(i) {
                if win.id() == id {
                    proof {
                        assert(views(self@.items)[i as int].id == id);
                        lemma_index_of_is(views(self@.items), id, Some(i as int));
                    }
                    return true
                }
            }
            assert(views(self@.items)[i as int].id != id);
            i += 1;
        }
        proof {
            lemma_index_of_is(views(self@.items), id, None);
        }
        false
    }

    /// Gives the focus to the first client with the given handle; where no
    /// client has it, the focus stays.
    pub fn set_focused_by_winid(&mut self, id: XWindowID)
        ensures
            final(self)@ == (match index_of(views(old(self)@.items), id) {
                Some(i) => old(self)@.set_focused(i),
                None => old(self)@,
            }),
    {
        proof {
            lemma_index_of(views(self@.items), id);
        }
        if let Some(i) = self.get_idx(id) {
            self.set_focused(i)
        }
    }

    pub fn set_focused_by_idx(&mut self, idx: usize)
        ensures
            final(self)@ == old(self)@.set_focused(idx as int),
    {
        self.set_focused(idx);
    }

    /// Whether the focused client has the given handle.
    pub fn is_focused(&self, id: XWindowID) -> (b: bool)
        ensures
            b == (self@.focus matches Some(f) && self@.items[f]@.id == id),
    {
        if let Some(window) = self.focused() {
            return window.id() == id
        } else {
            false
        }
    }
}

} // verus!
