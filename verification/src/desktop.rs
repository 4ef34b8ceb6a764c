//! The screen and the desktop of workspaces.
use vstd::prelude::*;
use crate::layout::{hide_all_requests, LayoutType};
use crate::ring::{Ring, RingView};
use crate::types::{Direction, Geometry};
use crate::window::{
    apart, has_id, index_of, joined, kept, lemma_index_of, lemma_within_apart, lemma_within_gone,
};
use crate::workspace::{
    lemma_activate_sound, lemma_del_window_sound, lemma_push_window_sound, lemma_relayout_has,
    lemma_relayout_kept, lemma_relayout_sound, Workspace, WorkspaceView,
};
use crate::x::base::{XWindow, XWindowID};
use crate::x::xserver::{XConn, XRequest};

verus! {

/// A physical monitor: its root window, with the monitor's geometry, and
/// its number.
#[derive(Debug, Clone, Copy)]
pub struct Screen {
    pub xwindow: XWindow,
    pub idx: i32,
}

impl Screen {
    pub fn new(screen_idx: i32, root_id: XWindowID) -> (screen: Self)
        ensures
            screen.xwindow == XWindow::unplaced(root_id),
            screen.idx == screen_idx,
    {
        Self { xwindow: XWindow::from(root_id), idx: screen_idx }
    }

    /// The rectangle of the monitor.
    pub fn geometry(&self) -> (geom: Geometry)
        ensures
            geom == self.xwindow.geom,
    {
        self.xwindow.geom
    }
}

/// The number of workspaces of a desktop.
pub const MAX_WKSPACES: usize = 10;

/// What a desktop holds: its workspaces, and the index of the one that is
/// on the screen.
#[verifier::ext_equal]
pub struct DesktopView {
    pub workspaces: Seq<WorkspaceView>,
    pub current: int,
}

/// What each of the workspaces holds, in their order.
pub open spec fn workspace_views(workspaces: Seq<Workspace>) -> Seq<WorkspaceView> {
    Seq::new(workspaces.len(), |i: int| workspaces[i]@)
}

/// The index of the first workspace that holds a client with the handle
/// `window`.
pub open spec fn holder(workspaces: Seq<WorkspaceView>, window: XWindowID) -> Option<int>
    decreases workspaces.len(),
{
    if workspaces.len() == 0 {
        None
    } else if has_id(workspaces[0].clients, window) {
        Some(0)
    } else {
        match holder(workspaces.drop_first(), window) {
            Some(at) => Some(at + 1),
            None => None,
        }
    }
}

/// Where a window is: the index of the first workspace that holds a
/// client with the handle `window`, and the index of the first such
/// client in it.
pub open spec fn located(workspaces: Seq<WorkspaceView>, window: XWindowID) -> Option<(int, int)> {
    match holder(workspaces, window) {
        Some(at) => match index_of(workspaces[at].clients, window) {
            Some(idx) => Some((at, idx)),
            None => None,
        },
        None => None,
    }
}

/// `holder` gives the index of a workspace that holds the window, before
/// which none holds it, and `None` only where no workspace holds it.
pub proof fn lemma_holder(workspaces: Seq<WorkspaceView>, window: XWindowID)
    ensures
        match holder(workspaces, window) {
            Some(at) => {
                &&& 0 <= at < workspaces.len()
                &&& has_id(workspaces[at].clients, window)
                &&& forall|k: int| 0 <= k < at ==> !has_id((#[trigger] workspaces[k]).clients, window)
            },
            None => forall|k: int|
                0 <= k < workspaces.len() ==> !has_id((#[trigger] workspaces[k]).clients, window),
        },
    decreases workspaces.len(),
{
    if workspaces.len() > 0 && !has_id(workspaces[0].clients, window) {
        let rest = workspaces.drop_first();
        lemma_holder(rest, window);
        match holder(rest, window) {
            Some(at) => {
                assert forall|k: int| 0 <= k < at + 1 implies !has_id(
                    (#[trigger] workspaces[k]).clients,
                    window,
                ) by {
                    if k > 0 {
                        assert(workspaces[k] == rest[k - 1]);
                    }
                }
            },
            None => {
                assert forall|k: int| 0 <= k < workspaces.len() implies !has_id(
                    (#[trigger] workspaces[k]).clients,
                    window,
                ) by {
                    if k > 0 {
                        assert(workspaces[k] == rest[k - 1]);
                    }
                }
            },
        }
    }
}

/// The index of a workspace that holds the window, before which none
/// holds it, is what `holder` gives; and so is `None` where no workspace
/// holds it.
pub proof fn lemma_holder_is(workspaces: Seq<WorkspaceView>, window: XWindowID, r: Option<int>)
    requires
        match r {
            Some(at) => {
                &&& 0 <= at < workspaces.len()
                &&& has_id(workspaces[at].clients, window)
                &&& forall|k: int| 0 <= k < at ==> !has_id((#[trigger] workspaces[k]).clients, window)
            },
            None => forall|k: int|
                0 <= k < workspaces.len() ==> !has_id((#[trigger] workspaces[k]).clients, window),
        },
    ensures
        holder(workspaces, window) == r,
{
    lemma_holder(workspaces, window);
    match (r, holder(workspaces, window)) {
        (Some(at), Some(k)) => {
            if at < k {
                assert(!has_id(workspaces[at].clients, window));
            } else if k < at {
                assert(!has_id(workspaces[k].clients, window));
            }
        },
        (Some(at), None) => {
            assert(!has_id(workspaces[at].clients, window));
        },
        (None, Some(k)) => {
            assert(!has_id(workspaces[k].clients, window));
        },
        (None, None) => {},
    }
}

/// A place as a pair of numbers.
pub open spec fn as_place(r: Option<(usize, usize)>) -> Option<(int, int)> {
    match r {
        Some((at, idx)) => Some((at as int, idx as int)),
        None => None,
    }
}

impl DesktopView {
    /// The current index is that of a workspace.
    pub open spec fn valid(self) -> bool {
        0 <= self.current < self.workspaces.len()
    }

    /// What holds of a desktop whenever an operation on it is over: the
    /// current index is that of a workspace, every workspace is sound,
    /// and no window stands in two workspaces.
    pub open spec fn sound(self) -> bool {
        &&& self.valid()
        &&& forall|k: int| 0 <= k < self.workspaces.len() ==> (#[trigger] self.workspaces[k]).sound()
        &&& forall|k: int, l: int|
            #![trigger self.workspaces[k], self.workspaces[l]]
            0 <= k < self.workspaces.len() && 0 <= l < self.workspaces.len() && k != l ==> apart(
                self.workspaces[k].clients,
                self.workspaces[l].clients,
            )
    }

    /// The workspace that is on the screen.
    pub open spec fn current_workspace(self) -> WorkspaceView {
        self.workspaces[self.current]
    }

    /// The desktop with another workspace in the place of the one at
    /// `idx`.
    pub open spec fn with_workspace(self, idx: int, ws: WorkspaceView) -> Self {
        DesktopView { workspaces: self.workspaces.update(idx, ws), ..self }
    }

    /// Whether a switch to the workspace at `idx` changes anything: the
    /// workspace exists and is not the current one.
    pub open spec fn switches_to(self, idx: int) -> bool {
        idx != self.current && 0 <= idx < self.workspaces.len()
    }

    /// The desktop after a switch to the workspace at `idx`: that
    /// workspace is shown and is the current one.
    pub open spec fn goto(self, idx: int, screen: Geometry) -> Self {
        if self.switches_to(idx) {
            DesktopView {
                workspaces: self.workspaces.update(idx, self.workspaces[idx].activate(screen)),
                current: idx,
            }
        } else {
            self
        }
    }

    /// What the server is asked at a switch to the workspace at `idx`:
    /// every window of the current workspace is hidden, then the other
    /// workspace is shown. Nothing is asked where nothing changes.
    pub open spec fn goto_requests(self, idx: int, screen: Geometry) -> Seq<XRequest> {
        if self.switches_to(idx) {
            hide_all_requests(self.current_workspace().clients)
                + self.workspaces[idx].activate_requests(screen)
        } else {
            Seq::empty()
        }
    }

    /// The index of the workspace beside the current one, the first being
    /// beside the last.
    pub open spec fn beside(self, direction: Direction) -> int {
        match direction {
            Direction::Forward => if self.current == self.workspaces.len() - 1 {
                0
            } else {
                self.current + 1
            },
            Direction::Backward => if self.current == 0 {
                self.workspaces.len() - 1
            } else {
                self.current - 1
            },
        }
    }

    /// The desktop after the focused client of the current workspace was
    /// sent to the workspace at `idx`: it leaves the current workspace as
    /// every client that leaves, and is handed to the other. A desktop
    /// without such a workspace stays as it is; without a focused client
    /// only the current workspace is laid out.
    pub open spec fn send_window_to(self, idx: int, screen: Geometry) -> Self {
        if 0 <= idx < self.workspaces.len() {
            let from = self.current_workspace();
            let sent = match from.focus {
                Some(f) => {
                    let left = self.with_workspace(self.current, from.del_window(f, screen));
                    left.with_workspace(idx, left.workspaces[idx].push_window(from.clients[f]))
                },
                None => self,
            };
            sent.with_workspace(self.current, sent.current_workspace().relayout(screen))
        } else {
            self
        }
    }

    /// What the server is asked when the focused client of the current
    /// workspace is sent to the workspace at `idx`.
    pub open spec fn send_window_to_requests(self, idx: int, screen: Geometry) -> Seq<XRequest> {
        if 0 <= idx < self.workspaces.len() {
            let from = self.current_workspace();
            let sent = match from.focus {
                Some(f) => {
                    let left = self.with_workspace(self.current, from.del_window(f, screen));
                    left.with_workspace(idx, left.workspaces[idx].push_window(from.clients[f]))
                },
                None => self,
            };
            (match from.focus {
                Some(f) => from.del_window_requests(f, screen),
                None => Seq::empty(),
            }) + sent.current_workspace().relayout_requests(screen)
        } else {
            Seq::empty()
        }
    }
}

/// A desktop stays sound when one of its workspaces gives way to a sound
/// workspace that holds no window that the first did not hold.
pub proof fn lemma_with_workspace_sound(desktop: DesktopView, at: int, ws: WorkspaceView)
    requires
        desktop.sound(),
        0 <= at < desktop.workspaces.len(),
        ws.sound(),
        kept(ws.clients, desktop.workspaces[at].clients),
    ensures
        desktop.with_workspace(at, ws).sound(),
{
    let after = desktop.with_workspace(at, ws).workspaces;
    assert forall|k: int, l: int|
        #![trigger after[k], after[l]]
        0 <= k < after.len() && 0 <= l < after.len() && k != l implies apart(
        after[k].clients,
        after[l].clients,
    ) by {
        if k == at {
            assert(apart(desktop.workspaces[at].clients, desktop.workspaces[l].clients));
            lemma_within_apart(
                ws.clients,
                desktop.workspaces[at].clients,
                desktop.workspaces[l].clients,
            );
        } else if l == at {
            assert(apart(desktop.workspaces[at].clients, desktop.workspaces[k].clients));
            lemma_within_apart(
                ws.clients,
                desktop.workspaces[at].clients,
                desktop.workspaces[k].clients,
            );
        } else {
            assert(apart(desktop.workspaces[k].clients, desktop.workspaces[l].clients));
        }
    }
}

/// A desktop stays sound when one of its workspaces gives way to a sound
/// workspace that a window joined which stands in no other workspace.
pub proof fn lemma_joined_sound(desktop: DesktopView, at: int, ws: WorkspaceView, id: XWindowID)
    requires
        desktop.sound(),
        0 <= at < desktop.workspaces.len(),
        ws.sound(),
        joined(ws.clients, desktop.workspaces[at].clients, id),
        forall|l: int|
            0 <= l < desktop.workspaces.len() && l != at ==> !has_id(
                (#[trigger] desktop.workspaces[l]).clients,
                id,
            ),
    ensures
        desktop.with_workspace(at, ws).sound(),
{
    let after = desktop.with_workspace(at, ws).workspaces;
    assert forall|l: int| 0 <= l < after.len() && l != at implies apart(
        ws.clients,
        (#[trigger] desktop.workspaces[l]).clients,
    ) && apart(desktop.workspaces[l].clients, ws.clients) by {
        let other = desktop.workspaces[l].clients;
        assert(apart(desktop.workspaces[at].clients, desktop.workspaces[l].clients));
        lemma_index_of(other, id);
        assert forall|i: int, j: int| 0 <= i < ws.clients.len() && 0 <= j < other.len() implies (
        #[trigger] ws.clients[i]).id != (#[trigger] other[j]).id by {
            if ws.clients[i].id != id {
                lemma_index_of(desktop.workspaces[at].clients, ws.clients[i].id);
                let m = index_of(desktop.workspaces[at].clients, ws.clients[i].id)->0;
                assert(desktop.workspaces[at].clients[m].id != other[j].id);
            }
        }
    }
    assert forall|k: int, l: int|
        #![trigger after[k], after[l]]
        0 <= k < after.len() && 0 <= l < after.len() && k != l implies apart(
        after[k].clients,
        after[l].clients,
    ) by {
        if k == at {
            assert(apart(ws.clients, desktop.workspaces[l].clients));
        } else if l == at {
            assert(apart(desktop.workspaces[k].clients, ws.clients));
        } else {
            assert(apart(desktop.workspaces[k].clients, desktop.workspaces[l].clients));
        }
    }
}

/// A window that is nowhere on the desktop stands in none of its
/// workspaces, and a window of one workspace of a sound desktop stands in
/// no other.
pub proof fn lemma_elsewhere(desktop: DesktopView, window: XWindowID, at: int, idx: int)
    ensures
        located(desktop.workspaces, window) is None ==> forall|l: int|
            0 <= l < desktop.workspaces.len() ==> !has_id(
                (#[trigger] desktop.workspaces[l]).clients,
                window,
            ),
        desktop.sound() && 0 <= at < desktop.workspaces.len() && 0 <= idx
            < desktop.workspaces[at].clients.len() && desktop.workspaces[at].clients[idx].id
            == window ==> forall|l: int|
            0 <= l < desktop.workspaces.len() && l != at ==> !has_id(
                (#[trigger] desktop.workspaces[l]).clients,
                window,
            ),
{
    lemma_holder(desktop.workspaces, window);
    if let Some(k) = holder(desktop.workspaces, window) {
        lemma_index_of(desktop.workspaces[k].clients, window);
    }
    if desktop.sound() && 0 <= at < desktop.workspaces.len() && 0 <= idx
        < desktop.workspaces[at].clients.len() && desktop.workspaces[at].clients[idx].id
        == window {
        assert forall|l: int| 0 <= l < desktop.workspaces.len() && l != at implies !has_id(
            (#[trigger] desktop.workspaces[l]).clients,
            window,
        ) by {
            let other = desktop.workspaces[l].clients;
            assert(apart(desktop.workspaces[at].clients, other));
            lemma_index_of(other, window);
            if let Some(j) = index_of(other, window) {
                assert(desktop.workspaces[at].clients[idx].id != other[j].id);
            }
        }
    }
}

/// A switch to another workspace keeps a desktop sound.
pub proof fn lemma_goto_sound(desktop: DesktopView, idx: int, screen: Geometry)
    requires
        desktop.sound(),
    ensures
        desktop.goto(idx, screen).sound(),
{
    if desktop.switches_to(idx) {
        lemma_activate_sound(desktop.workspaces[idx], screen);
        lemma_with_workspace_sound(desktop, idx, desktop.workspaces[idx].activate(screen));
        assert(desktop.goto(idx, screen).workspaces == desktop.with_workspace(
            idx,
            desktop.workspaces[idx].activate(screen),
        ).workspaces);
    }
}

/// Sending the focused window of the current workspace to a workspace
/// keeps a desktop sound. The window is gone from the current workspace
/// unless it was sent there, and stands in the workspace that it was
/// sent to.
pub proof fn lemma_send_window_to_sound(desktop: DesktopView, idx: int, screen: Geometry)
    requires
        desktop.sound(),
    ensures
        desktop.send_window_to(idx, screen).sound(),
        0 <= idx < desktop.workspaces.len() ==> (desktop.current_workspace().focus matches Some(f)
            ==> {
            let window = desktop.current_workspace().clients[f].id;
            let after = desktop.send_window_to(idx, screen);
            &&& has_id(after.workspaces[idx].clients, window)
            &&& idx != desktop.current ==> !has_id(after.current_workspace().clients, window)
        }),
{
    if 0 <= idx < desktop.workspaces.len() {
        let from = desktop.current_workspace();
        match from.focus {
            Some(f) => {
                let client = from.clients[f];
                lemma_del_window_sound(from, f, screen);
                let left = desktop.with_workspace(desktop.current, from.del_window(f, screen));
                lemma_with_workspace_sound(desktop, desktop.current, from.del_window(f, screen));
                lemma_elsewhere(desktop, client.id, desktop.current, f);
                let target = left.workspaces[idx];
                lemma_push_window_sound(target, client);
                let sent = left.with_workspace(idx, target.push_window(client));
                lemma_joined_sound(left, idx, target.push_window(client), client.id);
                let shown = sent.current_workspace();
                lemma_relayout_sound(shown, screen);
                lemma_relayout_kept(shown, screen);
                lemma_with_workspace_sound(sent, desktop.current, shown.relayout(screen));
                if idx == desktop.current {
                    lemma_relayout_has(shown, screen, client.id);
                } else {
                    lemma_within_gone(shown.relayout(screen).clients, shown.clients, client.id);
                }
            },
            None => {
                lemma_relayout_sound(from, screen);
                lemma_relayout_kept(from, screen);
                lemma_with_workspace_sound(desktop, desktop.current, from.relayout(screen));
            },
        }
    }
}

/// The workspaces of the window manager, one of which is on the screen.
#[derive(Clone)]
pub struct Desktop {
    workspaces: Ring<Workspace>,
    current: usize,
}

impl View for Desktop {
    type V = DesktopView;

    closed spec fn view(&self) -> DesktopView {
        DesktopView {
            workspaces: workspace_views(self.workspaces@.items),
            current: self.current as int,
        }
    }
}

impl Default for Desktop {
    /// A desktop of workspaces with dynamic tiling.
    fn default() -> (desktop: Self)
        ensures
            desktop.wf(),
            desktop@ == Desktop::initial(LayoutType::DTiled),
            desktop@.sound(),
    {
        Desktop::new(LayoutType::DTiled)
    }
}

impl Desktop {
    /// The current index is that of a workspace.
    pub open spec fn wf(&self) -> bool {
        self@.valid()
    }

    /// The desktop at startup: as many empty workspaces as a desktop has,
    /// the first of which is the current one. Manual tiling is not on
    /// offer: dynamic tiling is taken in its place.
    pub open spec fn initial(layout: LayoutType) -> DesktopView {
        DesktopView {
            workspaces: Seq::new(
                MAX_WKSPACES as nat,
                |i: int|
                    WorkspaceView::empty(
                        if layout == LayoutType::Floating {
                            LayoutType::Floating
                        } else {
                            LayoutType::DTiled
                        },
                    ),
            ),
            current: 0,
        }
    }

    /// Creates a new desktop with a specified layout.
    pub fn new(layout: LayoutType) -> (desktop: Self)
        ensures
            desktop.wf(),
            desktop@ == Desktop::initial(layout),
            desktop@.sound(),
    {
        let mut workspaces: Ring<Workspace> = Ring::new();
        let mut i: usize = 0;
        while i < MAX_WKSPACES
            invariant
                i <= MAX_WKSPACES,
                workspaces@.items.len() == i,
                forall|k: int|
                    0 <= k < i ==> (#[trigger] workspaces@.items[k])@ == Desktop::initial(
                        layout,
                    ).workspaces[k],
            decreases MAX_WKSPACES - i,
        {
            workspaces.append(Workspace::with_layout(layout));
            i += 1;
        }
        workspaces.set_focused(0);
        let desktop = Self { workspaces, current: 0 };
        assert(desktop@.workspaces =~= Desktop::initial(layout).workspaces);
        desktop
    }

    /// The number of workspaces.
    pub fn len(&self) -> (n: usize)
        ensures
            n == self@.workspaces.len(),
    {
        self.workspaces.len()
    }

    /// The index of the current workspace.
    pub fn current_idx(&self) -> (idx: usize)
        ensures
            idx == self@.current,
    {
        self.current
    }

    /// Returns a view into the current workspace.
    pub fn current(&self) -> (ws: &Workspace)
        requires
            self.wf(),
        ensures
            ws@ == self@.current_workspace(),
    {
        match self.workspaces.get(self.current) {
            Some(ws) => ws,
            None => vstd::pervasive::unreached(),
        }
    }

    /// Returns a mutable view into the current workspace
    pub fn current_mut(&mut self) -> (ws: &mut Workspace)
        requires
            old(self).wf(),
        ensures
            ws@ == old(self)@.current_workspace(),
            final(self)@ == old(self)@.with_workspace(old(self)@.current, final(ws)@),
            final(self).wf(),
    {
        let ghost ring = self.workspaces@;
        match self.workspaces.get_mut(self.current) {
            Some(ws) => {
                proof {
                    lemma_views_update(ring, self.current as int, *final(ws));
                }
                ws
            },
            None => vstd::pervasive::unreached(),
        }
    }

    /// The first workspace that holds the window, by its index, and the
    /// index of the window's client in it.
    pub fn locate(&self, window: XWindowID) -> (r: Option<(usize, usize)>)
        ensures
            as_place(r) == located(self@.workspaces, window),
            r matches Some((at, idx)) ==> at < self@.workspaces.len() && idx
                < self@.workspaces[at as int].clients.len()
                && self@.workspaces[at as int].clients[idx as int].id == window,
    {
        let mut at: usize = 0;
        while at < self.workspaces.len()
            invariant
                forall|k: int| 0 <= k < at ==> !has_id((#[trigger] self@.workspaces[k]).clients, window),
            decreases self@.workspaces.len() - at,
        {
            if let Some(ws) = self.workspaces.get(at) {
                assert(ws@ == self@.workspaces[at as int]);
                if let Some(idx) = ws.contains(window) {
                    proof {
                        lemma_holder_is(self@.workspaces, window, Some(at as int));
                        lemma_index_of(ws@.clients, window);
                    }
                    return Some((at, idx))
                }
            }
            at += 1;
        }
        proof {
            lemma_holder_is(self@.workspaces, window, None);
        }
        None
    }

    /// Get the workspace the window is on and its index inside it.
    pub fn retrieve(&self, window: XWindowID) -> (r: Option<(&Workspace, usize)>)
        ensures
            match located(self@.workspaces, window) {
                Some((at, idx)) => r matches Some((ws, i)) && i == idx && ws@
                    == self@.workspaces[at],
                None => r is None,
            },
    {
        match self.locate(window) {
            Some((at, idx)) => match self.workspaces.get(at) {
                Some(ws) => {
                    assert(ws@ == self@.workspaces[at as int]);
                    Some((ws, idx))
                },
                None => None,
            },
            None => None,
        }
    }

    /// `Desktop::retrieve`, mutable edition.
    pub fn retrieve_mut(&mut self, window: XWindowID) -> (r: Option<(&mut Workspace, usize)>)
        ensures
            match located(old(self)@.workspaces, window) {
                Some((at, idx)) => {
                    &&& r matches Some((ws, i))
                    &&& i == idx
                    &&& ws@ == old(self)@.workspaces[at]
                    &&& final(self)@ == old(self)@.with_workspace(at, final(ws)@)
                },
                None => r is None && final(self)@ == old(self)@,
            },
            old(self).wf() ==> final(self).wf(),
    {
        let ghost ring = self.workspaces@;
        match self.locate(window) {
            Some((at, idx)) => match self.workspaces.get_mut(at) {
                Some(ws) => {
                    proof {
                        lemma_views_update(ring, at as int, *final(ws));
                        assert(ws@ == old(self)@.workspaces[at as int]);
                    }
                    Some((ws, idx))
                },
                None => None,
            },
            None => None,
        }
    }

    /// Switches to the workspace beside the current one.
    pub fn cycle_workspace(&mut self, conn: &mut XConn, scr: &Screen, direction: Direction)
        requires
            old(self).wf(),
        ensures
            final(self).wf(),
            final(self)@ == old(self)@.goto(old(self)@.beside(direction), scr.xwindow.geom),
            final(conn).extends(
                old(conn),
                old(self)@.goto_requests(old(self)@.beside(direction), scr.xwindow.geom),
            ),
            old(self)@.sound() ==> final(self)@.sound(),
    {
        proof {
            if self@.sound() {
                lemma_goto_sound(self@, self@.beside(direction), scr.xwindow.geom);
            }
        }
        self.workspaces.set_focused(self.current);
        self.workspaces.cycle_focus(direction);
        if let Some(i) = self.workspaces.focused_idx() {
            self.goto(conn, scr, i);
        }
    }

    /// Get a reference to a workspace by its index
    pub fn get(&self, idx: usize) -> (r: Option<&Workspace>)
        ensures
            match r {
                Some(ws) => idx < self@.workspaces.len() && ws@ == self@.workspaces[idx as int],
                None => idx >= self@.workspaces.len(),
            },
    {
        self.workspaces.get(idx)
    }

    /// Get a mutable reference to a workspace by index.
    pub fn get_mut(&mut self, idx: usize) -> (r: Option<&mut Workspace>)
        ensures
            match r {
                Some(ws) => idx < old(self)@.workspaces.len() && ws@ == old(self)@.workspaces[idx as int]
                    && final(self)@ == old(self)@.with_workspace(idx as int, final(ws)@),
                None => idx >= old(self)@.workspaces.len() && final(self)@ == old(self)@,
            },
            old(self).wf() ==> final(self).wf(),
    {
        let ghost ring = self.workspaces@;
        match self.workspaces.get_mut(idx) {
            Some(ws) => {
                proof {
                    lemma_views_update(ring, idx as int, *final(ws));
                }
                Some(ws)
            },
            None => None,
        }
    }

    /// Switch to a given workspace. Nothing happens where it is the
    /// current workspace already, or where there is no such workspace.
    pub fn goto(&mut self, conn: &mut XConn, scr: &Screen, idx: usize)
        requires
            old(self).wf(),
        ensures
            final(self).wf(),
            final(self)@ == old(self)@.goto(idx as int, scr.xwindow.geom),
            final(conn).extends(old(conn), old(self)@.goto_requests(idx as int, scr.xwindow.geom)),
            old(self)@.sound() ==> final(self)@.sound(),
    {
        proof {
            if self@.sound() {
                lemma_goto_sound(self@, idx as int, scr.xwindow.geom);
            }
        }
        if self.current == idx {
            return
        }
        if idx >= self.workspaces.len() {
            return
        }
        self.current_mut().deactivate(conn);

        self.current = idx;

        self.current_mut().activate(conn, scr);
        assert(self@ == old(self)@.goto(idx as int, scr.xwindow.geom));
    }

    /// Send the focused window of the current workspace to a given
    /// workspace. The window is not shown there until that workspace is.
    pub fn send_window_to(&mut self, conn: &mut XConn, scr: &Screen, idx: usize)
        requires
            old(self).wf(),
        ensures
            final(self).wf(),
            final(self)@ == old(self)@.send_window_to(idx as int, scr.xwindow.geom),
            final(conn).extends(
                old(conn),
                old(self)@.send_window_to_requests(idx as int, scr.xwindow.geom),
            ),
            old(self)@.sound() ==> final(self)@.sound(),
            old(self)@.sound() && idx < old(self)@.workspaces.len() ==> (
            old(self)@.current_workspace().focus matches Some(f) ==> {
                let window = old(self)@.current_workspace().clients[f].id;
                &&& has_id(final(self)@.workspaces[idx as int].clients, window)
                &&& idx != old(self)@.current ==> !has_id(
                    final(self)@.current_workspace().clients,
                    window,
                )
            }),
    {
        proof {
            if self@.sound() {
                lemma_send_window_to_sound(self@, idx as int, scr.xwindow.geom);
            }
        }
        if idx >= self.workspaces.len() {
            return
        }
        if let Some(window) = self.current_mut().take_focused_window(conn, scr) {
            match self.get_mut(idx) {
                Some(ws) => ws.push_window(window),
                None => {},
            }
        }
        self.current_mut().relayout(conn, scr);
    }
}

/// What the workspaces hold moves with the workspaces when one of them is
/// replaced.
pub proof fn lemma_views_update(ring: RingView<Workspace>, idx: int, ws: Workspace)
    requires
        0 <= idx < ring.items.len(),
    ensures
        workspace_views(ring.with_item(idx, ws).items) == workspace_views(ring.items).update(
            idx,
            ws@,
        ),
{
    assert(workspace_views(ring.items.update(idx, ws)) =~= workspace_views(ring.items).update(
        idx,
        ws@,
    ));
}

} // verus!
