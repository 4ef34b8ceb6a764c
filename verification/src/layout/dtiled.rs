//! Dynamic tiling: the first tiled window of a workspace is the master and
//! takes the left half of the screen; the other tiled windows share the
//! right half, one below the other. Floating windows keep their place.
use vstd::prelude::*;
use crate::config::BORDER_WIDTH;
use crate::desktop::Screen;
use crate::layout::floating::{farewell_requests, welcome_requests};
use crate::layout::{hide_all_requests, update_requests};
use crate::types::{Geometry, WinLayoutState, XWinProperties};
use crate::window::{
    lemma_views_insert, lemma_views_remove, lemma_views_with_item, Client, ClientView,
};
use crate::workspace::{Workspace, WorkspaceView};
use crate::x::base::XWindowID;
use crate::x::xserver::{XConn, XRequest};

verus! {

/// The number of tiled clients.
pub open spec fn tiled_count(clients: Seq<ClientView>) -> nat
    decreases clients.len(),
{
    if clients.len() == 0 {
        0
    } else {
        tiled_count(clients.drop_last()) + if clients.last().is_tiled() {
            1nat
        } else {
            0nat
        }
    }
}

/// The number of tiled clients before index `i`.
pub open spec fn rank(clients: Seq<ClientView>, i: int) -> nat {
    tiled_count(clients.subrange(0, i))
}

/// The index of the first tiled client.
pub open spec fn first_tiled(clients: Seq<ClientView>) -> Option<int>
    decreases clients.len(),
{
    if clients.len() == 0 {
        None
    } else if clients[0].is_tiled() {
        Some(0)
    } else {
        match first_tiled(clients.drop_first()) {
            Some(i) => Some(i + 1),
            None => None,
        }
    }
}

/// A screen on which windows can be tiled: its size is not negative, and
/// its right and lower edges are within the range of a coordinate.
pub open spec fn tileable(screen: Geometry) -> bool {
    &&& 0 <= screen.width
    &&& 0 <= screen.height
    &&& screen.x + screen.width <= i32::MAX
    &&& screen.y + screen.height <= i32::MAX
}

/// The rectangle of a window together with its border.
pub open spec fn framed(geom: Geometry) -> (int, int, int, int) {
    (geom.x as int, geom.y as int, geom.width + 2 * BORDER_WIDTH, geom.height + 2 * BORDER_WIDTH)
}

/// The rectangle of a window without its border.
pub open spec fn inner(geom: Geometry) -> (int, int, int, int) {
    (geom.x as int, geom.y as int, geom.width as int, geom.height as int)
}

/// Whether two rectangles `(x, y, width, height)` have a point in common.
pub open spec fn overlap(a: (int, int, int, int), b: (int, int, int, int)) -> bool {
    &&& a.0 < b.0 + b.2
    &&& b.0 < a.0 + a.2
    &&& a.1 < b.1 + b.3
    &&& b.1 < a.1 + a.3
}

/// The width of the master, and of each window beside it: half of what
/// the screen leaves within a border, less a border.
pub open spec fn column_width(screen: Geometry) -> int {
    (screen.width - 2 * BORDER_WIDTH) / 2 - BORDER_WIDTH
}

/// The rectangle of the master where it is the only tiled window: the
/// screen, less the border.
pub open spec fn master_alone(screen: Geometry) -> Geometry {
    Geometry {
        x: screen.x,
        y: screen.y,
        width: (screen.width - 2 * BORDER_WIDTH) as i32,
        height: (screen.height - 2 * BORDER_WIDTH) as i32,
    }
}

/// The rectangle of the master where other windows are tiled beside it:
/// the left half, at full height.
pub open spec fn master_split(screen: Geometry) -> Geometry {
    Geometry {
        x: screen.x,
        y: screen.y,
        width: column_width(screen) as i32,
        height: (screen.height - 2 * BORDER_WIDTH) as i32,
    }
}

/// The rectangle of the window at place `j` of `count` in the right half,
/// counted from the top: the height of the screen is shared evenly, and
/// each window gives up a border of its share.
pub open spec fn slave_slot(screen: Geometry, j: int, count: int) -> Geometry {
    Geometry {
        x: (screen.x + column_width(screen) + 2 * BORDER_WIDTH) as i32,
        y: (screen.y + j * (screen.height as int / count)) as i32,
        width: column_width(screen) as i32,
        height: (screen.height as int / count - 2 * BORDER_WIDTH) as i32,
    }
}

/// The rectangle of the tiled window of the given rank among `n` tiled
/// windows. The master has rank 0.
pub open spec fn slot(screen: Geometry, rank: int, n: int) -> Geometry {
    if n <= 1 {
        master_alone(screen)
    } else if rank == 0 {
        master_split(screen)
    } else {
        slave_slot(screen, rank - 1, n - 1)
    }
}

/// A screen with room for `n` tiled windows, each with a width and a
/// height above zero.
pub open spec fn roomy(screen: Geometry, n: int) -> bool {
    &&& screen.width >= 4 * BORDER_WIDTH + 2
    &&& screen.height >= (n - 1) * (2 * BORDER_WIDTH + 1)
}

/// Whether every tiled client is in the slot of its rank on the screen.
pub open spec fn arranged(clients: Seq<ClientView>, screen: Geometry) -> bool {
    forall|i: int|
        0 <= i < clients.len() && #[trigger] clients[i].is_tiled() ==> clients[i].geom == slot(
            screen,
            rank(clients, i) as int,
            tiled_count(clients) as int,
        )
}

/// The clients after tiling: each tiled client is in the slot of its rank,
/// each floating client where it was.
pub open spec fn tiled(clients: Seq<ClientView>, screen: Geometry) -> Seq<ClientView> {
    Seq::new(
        clients.len(),
        |i: int|
            if clients[i].is_tiled() {
                clients[i].with_geometry(
                    slot(screen, rank(clients, i) as int, tiled_count(clients) as int),
                )
            } else {
                clients[i]
            },
    )
}

/// `first_tiled` gives the index of a tiled client before which none is
/// tiled, and `None` only where no client is tiled.
pub proof fn lemma_first_tiled(clients: Seq<ClientView>)
    ensures
        match first_tiled(clients) {
            Some(i) => {
                &&& 0 <= i < clients.len()
                &&& clients[i].is_tiled()
                &&& forall|j: int| 0 <= j < i ==> !(#[trigger] clients[j]).is_tiled()
            },
            None => forall|j: int| 0 <= j < clients.len() ==> !(#[trigger] clients[j]).is_tiled(),
        },
    decreases clients.len(),
{
    if clients.len() > 0 && !clients[0].is_tiled() {
        let rest = clients.drop_first();
        lemma_first_tiled(rest);
        match first_tiled(rest) {
            Some(i) => {
                assert forall|j: int| 0 <= j < i + 1 implies !(#[trigger] clients[j]).is_tiled() by {
                    if j > 0 {
                        assert(!rest[j - 1].is_tiled());
                    }
                }
            },
            None => {
                assert forall|j: int| 0 <= j < clients.len() implies !(#[trigger] clients[
                    j
                ]).is_tiled() by {
                    if j > 0 {
                        assert(!rest[j - 1].is_tiled());
                    }
                }
            },
        }
    }
}

/// The index of a tiled client before which none is tiled is what
/// `first_tiled` gives; and so is `None` where no client is tiled.
pub proof fn lemma_first_tiled_is(clients: Seq<ClientView>, r: Option<int>)
    requires
        match r {
            Some(i) => {
                &&& 0 <= i < clients.len()
                &&& clients[i].is_tiled()
                &&& forall|j: int| 0 <= j < i ==> !(#[trigger] clients[j]).is_tiled()
            },
            None => forall|j: int| 0 <= j < clients.len() ==> !(#[trigger] clients[j]).is_tiled(),
        },
    ensures
        first_tiled(clients) == r,
{
    lemma_first_tiled(clients);
    match (r, first_tiled(clients)) {
        (Some(i), Some(k)) => {
            if i < k {
                assert(!clients[i].is_tiled());
            } else if k < i {
                assert(!clients[k].is_tiled());
            }
        },
        (Some(i), None) => {
            assert(!clients[i].is_tiled());
        },
        (None, Some(k)) => {
            assert(!clients[k].is_tiled());
        },
        (None, None) => {},
    }
}

/// Two sequences of clients that agree, place by place, on which clients
/// are tiled have the same number of tiled clients.
pub proof fn lemma_tiled_count_same(a: Seq<ClientView>, b: Seq<ClientView>)
    requires
        a.len() == b.len(),
        forall|i: int| 0 <= i < a.len() ==> a[i].is_tiled() == b[i].is_tiled(),
    ensures
        tiled_count(a) == tiled_count(b),
    decreases a.len(),
{
    if a.len() > 0 {
        lemma_tiled_count_same(a.drop_last(), b.drop_last());
    }
}

/// The count of a sequence is the count of a front part and of the rest.
pub proof fn lemma_tiled_count_split(clients: Seq<ClientView>, i: int)
    requires
        0 <= i <= clients.len(),
    ensures
        tiled_count(clients) == tiled_count(clients.subrange(0, i)) + tiled_count(
            clients.subrange(i, clients.len() as int),
        ),
    decreases clients.len() - i,
{
    let len = clients.len() as int;
    if i == len {
        assert(clients.subrange(0, i) =~= clients);
        assert(clients.subrange(i, len).len() == 0);
    } else {
        let front = clients.drop_last();
        assert(front.subrange(0, i) =~= clients.subrange(0, i));
        assert(clients.subrange(i, len).drop_last() =~= front.subrange(i, len - 1));
        lemma_tiled_count_split(front, i);
    }
}

/// A tiled client counts: no client is tiled where the count is zero, and
/// the count is zero where no client is tiled.
pub proof fn lemma_tiled_count_zero(clients: Seq<ClientView>)
    ensures
        tiled_count(clients) == 0 <==> forall|j: int|
            0 <= j < clients.len() ==> !(#[trigger] clients[j]).is_tiled(),
        tiled_count(clients) <= clients.len(),
    decreases clients.len(),
{
    if clients.len() > 0 {
        let front = clients.drop_last();
        lemma_tiled_count_zero(front);
        if tiled_count(clients) == 0 {
            assert forall|j: int| 0 <= j < clients.len() implies !(#[trigger] clients[
                j
            ]).is_tiled() by {
                if j < front.len() {
                    assert(!front[j].is_tiled());
                }
            }
        }
        if forall|j: int| 0 <= j < clients.len() ==> !(#[trigger] clients[j]).is_tiled() {
            assert forall|j: int| 0 <= j < front.len() implies !(#[trigger] front[j]).is_tiled() by {
                assert(!clients[j].is_tiled());
            }
        }
    }
}

/// The rank of a client is below the number of tiled clients where the
/// client is tiled itself, and grows from one tiled client to the next.
pub proof fn lemma_rank(clients: Seq<ClientView>, i: int, j: int)
    requires
        0 <= i <= j < clients.len(),
        clients[j].is_tiled(),
    ensures
        rank(clients, i) <= rank(clients, j) < tiled_count(clients),
        i < j && clients[i].is_tiled() ==> rank(clients, i) < rank(clients, j),
{
    let len = clients.len() as int;
    lemma_tiled_count_split(clients, j + 1);
    let upto = clients.subrange(0, j + 1);
    assert(upto.drop_last() =~= clients.subrange(0, j));
    assert(upto.last() == clients[j]);
    lemma_tiled_count_split(clients.subrange(0, j), i);
    assert(clients.subrange(0, j).subrange(0, i) =~= clients.subrange(0, i));
    if i < j && clients[i].is_tiled() {
        let mid = clients.subrange(0, j).subrange(i, j);
        lemma_tiled_count_zero(mid);
        assert(mid[0].is_tiled());
    }
}

/// The number that a client adds to the count of tiled clients.
pub open spec fn weight(client: ClientView) -> nat {
    if client.is_tiled() {
        1
    } else {
        0
    }
}

/// A client that is replaced takes its weight out of the count and puts
/// that of its replacement in.
pub proof fn lemma_tiled_count_update(clients: Seq<ClientView>, i: int, client: ClientView)
    requires
        0 <= i < clients.len(),
    ensures
        tiled_count(clients.update(i, client)) + weight(clients[i]) == tiled_count(clients) + weight(
            client,
        ),
{
    let len = clients.len() as int;
    let after = clients.update(i, client);
    lemma_tiled_count_split(clients, i + 1);
    lemma_tiled_count_split(after, i + 1);
    assert(after.subrange(i + 1, len) =~= clients.subrange(i + 1, len));
    assert(after.subrange(0, i + 1).drop_last() =~= clients.subrange(0, i + 1).drop_last());
}

/// A client that joins puts its weight in the count.
pub proof fn lemma_tiled_count_insert(clients: Seq<ClientView>, i: int, client: ClientView)
    requires
        0 <= i <= clients.len(),
    ensures
        tiled_count(clients.insert(i, client)) == tiled_count(clients) + weight(client),
{
    let len = clients.len() as int;
    let after = clients.insert(i, client);
    lemma_tiled_count_split(clients, i);
    lemma_tiled_count_split(after, i + 1);
    assert(after.subrange(i + 1, len + 1) =~= clients.subrange(i, len));
    assert(after.subrange(0, i + 1).drop_last() =~= clients.subrange(0, i));
}

/// A client that leaves takes its weight out of the count.
pub proof fn lemma_tiled_count_remove(clients: Seq<ClientView>, i: int)
    requires
        0 <= i < clients.len(),
    ensures
        tiled_count(clients.remove(i)) + weight(clients[i]) == tiled_count(clients),
{
    let len = clients.len() as int;
    let after = clients.remove(i);
    lemma_tiled_count_split(clients, i + 1);
    lemma_tiled_count_split(after, i);
    assert(after.subrange(i, len - 1) =~= clients.subrange(i + 1, len));
    assert(clients.subrange(0, i + 1).drop_last() =~= after.subrange(0, i));
}

/// Two clients that change places leave the count as it is.
pub proof fn lemma_tiled_count_swap(clients: Seq<ClientView>, i: int)
    requires
        0 <= i < clients.len(),
    ensures
        tiled_count(clients.update(0, clients[i]).update(i, clients[0])) == tiled_count(clients),
{
    lemma_tiled_count_update(clients, 0, clients[i]);
    lemma_tiled_count_update(clients.update(0, clients[i]), i, clients[0]);
}

/// Tiling changes no client but in its geometry, and no floating client at
/// all.
pub proof fn lemma_tiled_keeps(clients: Seq<ClientView>, screen: Geometry)
    ensures
        tiled(clients, screen).len() == clients.len(),
        forall|i: int|
            0 <= i < clients.len() ==> (#[trigger] tiled(clients, screen)[i]) == clients[i].with_geometry(
                tiled(clients, screen)[i].geom,
            ),
        forall|i: int|
            0 <= i < clients.len() && !clients[i].is_tiled() ==> (#[trigger] tiled(clients, screen)[i])
                == clients[i],
        tiled_count(tiled(clients, screen)) == tiled_count(clients),
{
    lemma_tiled_count_same(clients, tiled(clients, screen));
}

/// Tiling what is tiled changes nothing.
pub proof fn lemma_tiled_idempotent(clients: Seq<ClientView>, screen: Geometry)
    ensures
        tiled(tiled(clients, screen), screen) == tiled(clients, screen),
{
    let once = tiled(clients, screen);
    let twice = tiled(once, screen);
    lemma_tiled_count_same(clients, once);
    assert forall|i: int| 0 <= i < clients.len() implies twice[i] == once[i] by {
        lemma_tiled_count_same(clients.subrange(0, i), once.subrange(0, i));
    }
    assert(twice =~= once);
}

/// On a screen that can be tiled every slot lies within the range of a
/// coordinate.
pub proof fn lemma_slot_fits(screen: Geometry, r: int, n: int)
    requires
        tileable(screen),
        0 <= r < n,
    ensures
        slot(screen, r, n).x == if n >= 2 && r >= 1 {
            screen.x + column_width(screen) + 2 * BORDER_WIDTH
        } else {
            screen.x as int
        },
        slot(screen, r, n).y == if n >= 2 && r >= 1 {
            screen.y + (r - 1) * (screen.height as int / (n - 1))
        } else {
            screen.y as int
        },
        slot(screen, r, n).width == if n >= 2 {
            column_width(screen)
        } else {
            screen.width - 2 * BORDER_WIDTH
        },
        slot(screen, r, n).height == if n >= 2 && r >= 1 {
            screen.height as int / (n - 1) - 2 * BORDER_WIDTH
        } else {
            screen.height - 2 * BORDER_WIDTH
        },
{
    if n >= 2 && r >= 1 {
        let count = n - 1;
        let share = screen.height as int / count;
        lemma_share(screen.height as int, count, r - 1);
    }
}

/// The shares of a height among `count` windows, stacked, stay within
/// the height.
pub proof fn lemma_share(height: int, count: int, j: int)
    requires
        0 <= height,
        0 <= j < count,
    ensures
        0 <= height / count <= height,
        0 <= j * (height / count) <= height,
        j * (height / count) + height / count <= height,
{
    let share = height / count;
    assert(0 <= share <= height) by (nonlinear_arith)
        requires
            0 <= height,
            count >= 1,
            share == height / count,
    ;
    assert(count * share <= height) by (nonlinear_arith)
        requires
            0 <= height,
            count >= 1,
            share == height / count,
    ;
    assert(0 <= j * share && j * share + share <= count * share) by (nonlinear_arith)
        requires
            0 <= share,
            0 <= j < count,
    ;
}

/// No two tiled windows overlap, with their borders or without, and each
/// touches the next: the windows of the right half begin where the border
/// of the master ends, and each of them begins where the border of the one
/// above it ends.
pub proof fn lemma_slots_apart(screen: Geometry, n: int, a: int, b: int)
    requires
        tileable(screen),
        0 <= a < b < n,
    ensures
        !overlap(framed(slot(screen, a, n)), framed(slot(screen, b, n))),
        !overlap(inner(slot(screen, a, n)), inner(slot(screen, b, n))),
        a == 0 ==> slot(screen, b, n).x == slot(screen, a, n).x + slot(screen, a, n).width + 2
            * BORDER_WIDTH,
        a >= 1 ==> slot(screen, b, n).x == slot(screen, a, n).x && slot(screen, b, n).width
            == slot(screen, a, n).width,
        a >= 1 && b == a + 1 ==> slot(screen, b, n).y == slot(screen, a, n).y + slot(
            screen,
            a,
            n,
        ).height + 2 * BORDER_WIDTH,
{
    lemma_slot_fits(screen, a, n);
    lemma_slot_fits(screen, b, n);
    if a >= 1 {
        let share = screen.height as int / (n - 1);
        lemma_share(screen.height as int, n - 1, a - 1);
        assert((b - 1) * share >= a * share) by (nonlinear_arith)
            requires
                0 <= share,
                a < b,
        ;
        assert(a * share == (a - 1) * share + share) by (nonlinear_arith);
        lemma_share(screen.height as int, n - 1, b - 1);
    }
}

/// On a screen with room for two or more tiled windows each of them has a
/// width and a height above zero.
pub proof fn lemma_slots_roomy(screen: Geometry, n: int, r: int)
    requires
        tileable(screen),
        roomy(screen, n),
        2 <= n,
        0 <= r < n,
    ensures
        slot(screen, r, n).width > 0,
        slot(screen, r, n).height > 0,
{
    lemma_slot_fits(screen, r, n);
    let count = n - 1;
    let least = 2 * BORDER_WIDTH + 1;
    let share = screen.height as int / count;
    assert(count * least >= least) by (nonlinear_arith)
        requires
            count >= 1,
            least >= 0,
    ;
    assert(share >= least) by (nonlinear_arith)
        requires
            count >= 1,
            screen.height >= count * least,
            share == screen.height as int / count,
    ;
}

/// A sequence of clients that was tiled is arranged on the screen.
pub proof fn lemma_tiled_arranged(clients: Seq<ClientView>, screen: Geometry)
    ensures
        arranged(tiled(clients, screen), screen),
{
    let laid = tiled(clients, screen);
    lemma_tiled_count_same(clients, laid);
    assert forall|i: int| 0 <= i < laid.len() && #[trigger] laid[i].is_tiled() implies laid[i].geom
        == slot(screen, rank(laid, i) as int, tiled_count(laid) as int) by {
        lemma_tiled_count_same(clients.subrange(0, i), laid.subrange(0, i));
    }
}

/// A workspace that was laid out on a screen that can be tiled is arranged
/// on it.
pub proof fn lemma_tile_arranged(ws: WorkspaceView, screen: Geometry)
    requires
        tileable(screen),
    ensures
        arranged(ws.tile(screen).clients, screen),
{
    lemma_tiled_arranged(ws.clients, screen);
    lemma_tiled_count_zero(ws.clients);
}

/// Among clients that are arranged on a screen that can be tiled, no two
/// tiled windows overlap, with their borders or without. The first tiled
/// client has the left half; the others begin where its border ends, stand
/// one above the other, and each begins where the border of the tiled
/// client before it ends.
pub proof fn lemma_arranged_apart(clients: Seq<ClientView>, screen: Geometry, i: int, j: int)
    requires
        tileable(screen),
        arranged(clients, screen),
        0 <= i < j < clients.len(),
        clients[i].is_tiled(),
        clients[j].is_tiled(),
    ensures
        !overlap(framed(clients[i].geom), framed(clients[j].geom)),
        !overlap(inner(clients[i].geom), inner(clients[j].geom)),
        rank(clients, i) == 0 ==> clients[j].geom.x == clients[i].geom.x + clients[i].geom.width + 2
            * BORDER_WIDTH,
        rank(clients, i) >= 1 ==> clients[j].geom.x == clients[i].geom.x && clients[j].geom.width
            == clients[i].geom.width,
        rank(clients, i) >= 1 && rank(clients, j) == rank(clients, i) + 1 ==> clients[j].geom.y
            == clients[i].geom.y + clients[i].geom.height + 2 * BORDER_WIDTH,
{
    lemma_rank(clients, i, j);
    lemma_slots_apart(
        screen,
        tiled_count(clients) as int,
        rank(clients, i) as int,
        rank(clients, j) as int,
    );
}

/// Among two or more tiled clients that are arranged on a screen with room
/// for them, every window has a width and a height above zero.
pub proof fn lemma_arranged_roomy(clients: Seq<ClientView>, screen: Geometry, i: int)
    requires
        tileable(screen),
        roomy(screen, tiled_count(clients) as int),
        arranged(clients, screen),
        2 <= tiled_count(clients),
        0 <= i < clients.len(),
        clients[i].is_tiled(),
    ensures
        clients[i].geom.width > 0,
        clients[i].geom.height > 0,
{
    lemma_rank(clients, i, i);
    lemma_slots_roomy(screen, tiled_count(clients) as int, rank(clients, i) as int);
}

/// Where two tiled clients are arranged, the second stands beside the
/// first: both begin at the top of the screen and have its height less
/// the border, and both have the same width.
pub proof fn lemma_arranged_pair(clients: Seq<ClientView>, screen: Geometry, i: int, j: int)
    requires
        tileable(screen),
        arranged(clients, screen),
        tiled_count(clients) == 2,
        0 <= i < j < clients.len(),
        clients[i].is_tiled(),
        clients[j].is_tiled(),
    ensures
        clients[i].geom.y == screen.y,
        clients[j].geom.y == screen.y,
        clients[i].geom.height == screen.height - 2 * BORDER_WIDTH,
        clients[j].geom.height == screen.height - 2 * BORDER_WIDTH,
        clients[i].geom.width == clients[j].geom.width,
        clients[i].geom.x == screen.x,
        clients[j].geom.x == clients[i].geom.x + clients[i].geom.width + 2 * BORDER_WIDTH,
{
    lemma_rank(clients, i, j);
    lemma_slot_fits(screen, 0, 2);
    lemma_slot_fits(screen, 1, 2);
}

/// The requests that give every window the geometry of its client, the
/// first of the ring first, and bring the window `window` on the screen
/// once it has its geometry.
pub open spec fn announce_requests(clients: Seq<ClientView>, window: XWindowID) -> Seq<XRequest>
    decreases clients.len(),
{
    if clients.len() == 0 {
        Seq::empty()
    } else {
        announce_requests(clients.drop_last(), window) + XConn::geometry_requests(
            clients.last().id,
            clients.last().geom,
        ) + if clients.last().id == window {
            welcome_requests(window)
        } else {
            Seq::empty()
        }
    }
}

impl WorkspaceView {
    /// The workspace after its tiled clients were laid out on the screen.
    /// A workspace without tiled clients has no master afterwards. On a
    /// screen that cannot be tiled no client is moved.
    pub open spec fn tile(self, screen: Geometry) -> Self {
        if tiled_count(self.clients) == 0 {
            self.unset_master()
        } else if tileable(screen) {
            WorkspaceView { clients: tiled(self.clients, screen), ..self }
        } else {
            self
        }
    }

    /// The workspace after a tiled client joined it: as master and first
    /// of the ring where there was no master, else as last of the ring.
    pub open spec fn dtiled_placed(self, client: ClientView) -> Self {
        if self.master is Some {
            self.with_ring(self.ring().append(client))
        } else {
            self.with_ring(self.ring().push(client)).promote(0)
        }
    }

    /// The workspace after a new window joined the tiling: the clients
    /// are laid out anew, and the new window has the focus.
    pub open spec fn dtiled_add_window(self, client: ClientView, screen: Geometry) -> Self {
        self.dtiled_placed(client).tile(screen).focus_window(client.id)
    }

    /// What the server is asked when a new window joins the tiling.
    pub open spec fn dtiled_add_window_requests(
        self,
        client: ClientView,
        screen: Geometry,
    ) -> Seq<XRequest> {
        let laid = self.dtiled_placed(client).tile(screen);
        announce_requests(laid.clients, client.id) + laid.focus_requests(client.id)
    }

    /// The window to which the focus falls back: the master, or the first
    /// of the ring where there is no master.
    pub open spec fn fallback(self) -> Option<XWindowID> {
        match self.master {
            Some(master) => Some(master),
            None => if self.clients.len() > 0 {
                Some(self.clients[0].id)
            } else {
                None
            },
        }
    }

    /// The workspace after the client at `idx` left it, before the
    /// clients are laid out anew. Where the master left, the first tiled
    /// client is master now. The focus is on the window to which it falls
    /// back.
    pub open spec fn dtiled_left(self, idx: int) -> Self {
        let left = self.with_ring(self.ring().remove(idx).unset_focused());
        let led = if self.master == Some(self.clients[idx].id) {
            left.elect()
        } else {
            left
        };
        match led.fallback() {
            Some(window) => led.focus_window(window),
            None => led,
        }
    }

    /// The workspace after the client at `idx` left the tiling.
    pub open spec fn dtiled_del_window(self, idx: int, screen: Geometry) -> Self {
        self.dtiled_left(idx).tile(screen)
    }

    /// What the server is asked when the client at `idx` leaves the
    /// tiling.
    pub open spec fn dtiled_del_window_requests(self, idx: int, screen: Geometry) -> Seq<XRequest> {
        let left = self.with_ring(self.ring().remove(idx).unset_focused());
        let led = if self.master == Some(self.clients[idx].id) {
            left.elect()
        } else {
            left
        };
        farewell_requests(self.clients[idx].id) + (match led.fallback() {
            Some(window) => led.focus_requests(window),
            None => Seq::empty(),
        }) + update_requests(self.dtiled_del_window(idx, screen).clients)
    }
}

/// Lays the tiled clients out on the screen, then shows the workspace.
pub fn activate(conn: &mut XConn, ws: &mut Workspace, screen: &Screen)
    ensures
        final(ws)@ == old(ws)@.tile(screen.xwindow.geom).shown(),
        final(conn).extends(old(conn), old(ws)@.tile(screen.xwindow.geom).show_requests()),
        tileable(screen.xwindow.geom) ==> arranged(final(ws)@.clients, screen.xwindow.geom),
{
    // the screen may have changed while the workspace was hidden
    calculate_geoms(ws, screen);
    // now that all the geometries are calculated, we can map the normal way
    super::activate(conn, ws, screen);
}

pub fn deactivate(conn: &mut XConn, ws: &mut Workspace)
    ensures
        final(ws)@ == old(ws)@,
        final(conn).extends(old(conn), hide_all_requests(old(ws)@.clients)),
{
    // no special treatment needed for this one.
    super::deactivate(conn, ws);
}

/// Takes a new window into the workspace as a tiled window, lays the
/// clients out anew, shows the window and gives it the focus.
pub fn add_window(
    conn: &mut XConn,
    ws: &mut Workspace,
    screen: &Screen,
    window_id: XWindowID,
    properties: &XWinProperties,
)
    ensures
        final(ws)@ == old(ws)@.dtiled_add_window(
            ClientView::admitted(window_id, *properties, WinLayoutState::Tiled),
            screen.xwindow.geom,
        ),
        final(conn).extends(
            old(conn),
            old(ws)@.dtiled_add_window_requests(
                ClientView::admitted(window_id, *properties, WinLayoutState::Tiled),
                screen.xwindow.geom,
            ),
        ),
        tileable(screen.xwindow.geom) ==> arranged(final(ws)@.clients, screen.xwindow.geom),
{
    // Internally create a new window and set its supported protocols
    let mut window = Client::tiled(window_id, properties);
    window.set_supported(&properties.wm_protocols);

    // Add new windows
    // If there is already a master, insert after it
    // Else, set new window as the master
    proof {
        lemma_views_insert(ws.windows@, 0, window);
        lemma_views_insert(ws.windows@, ws.windows@.items.len() as int, window);
    }
    if ws.master.is_some() {
        ws.windows.append(window);
    } else {
        ws.windows.push(window);
        ws.promote(0);
    }

    // Calculate the tile sizes
    calculate_geoms(ws, screen);

    let ghost clients = ws@.clients;
    let ghost before = *conn;
    let mut i: usize = 0;
    while i < ws.windows.len()
        invariant
            i <= clients.len(),
            ws@.clients == clients,
            conn.extends(&before, announce_requests(clients.subrange(0, i as int), window_id)),
        decreases clients.len() - i,
    {
        if let Some(win) = ws.windows.get(i) {
            proof {
                let upto = clients.subrange(0, i + 1);
                assert(upto.drop_last() =~= clients.subrange(0, i as int));
                assert(upto.last() == win@);
            }
            win.update_geometry(conn);
            if win.id() == window_id {
                conn.set_border_width(win.id(), BORDER_WIDTH);

                conn.map_window(win.id());
                conn.stack_above(win.id());
                conn.child_events(win.id());
            }
        }
        i += 1;
    }
    assert(clients.subrange(0, clients.len() as int) =~= clients);
    window_focus(conn, ws, window_id);
}

/// Takes the client at `idx`, which is the client of the window
/// `window_id`, out of the workspace, hides its window, and lays the
/// clients that stay out anew.
pub fn del_window(
    conn: &mut XConn,
    ws: &mut Workspace,
    screen: &Screen,
    window_id: XWindowID,
    idx: usize,
) -> (window: Client)
    requires
        idx < old(ws)@.clients.len(),
        old(ws)@.clients[idx as int].id == window_id,
    ensures
        window@ == old(ws)@.clients[idx as int],
        final(ws)@ == old(ws)@.dtiled_del_window(idx as int, screen.xwindow.geom),
        final(conn).extends(
            old(conn),
            old(ws)@.dtiled_del_window_requests(idx as int, screen.xwindow.geom),
        ),
        tileable(screen.xwindow.geom) ==> arranged(final(ws)@.clients, screen.xwindow.geom),
{
    proof {
        lemma_views_remove(ws.windows@, idx as int);
    }
    // internally remove window from tracking
    let window = ws.windows.remove(idx).unwrap();

    // disable events and unmap the window
    conn.disable_events(window_id);
    conn.unmap_window(window_id);
    ws.windows.unset_focused();

    // set new workspace master or unset it if empty
    if ws.is_master(window_id) {
        ws.elect();
    }
    if let Some(target) = ws.fallback() {
        window_focus(conn, ws, target);
    }
    // recalculate layouts

    relayout(conn, ws, screen);

    window
}

pub fn window_focus(conn: &mut XConn, ws: &mut Workspace, window: XWindowID)
    ensures
        final(ws)@ == old(ws)@.focus_window(window),
        final(conn).extends(old(conn), old(ws)@.focus_requests(window)),
{
    super::floating::window_focus(conn, ws, window)
}

/// Lays the tiled clients out on the screen and tells the server the
/// geometry of every client.
pub fn relayout(conn: &mut XConn, ws: &mut Workspace, screen: &Screen)
    ensures
        final(ws)@ == old(ws)@.tile(screen.xwindow.geom),
        final(conn).extends(
            old(conn),
            update_requests(old(ws)@.tile(screen.xwindow.geom).clients),
        ),
        tileable(screen.xwindow.geom) ==> arranged(final(ws)@.clients, screen.xwindow.geom),
{
    calculate_geoms(ws, screen);

    let ghost clients = ws@.clients;
    let ghost before = *conn;
    let mut i: usize = 0;
    while i < ws.windows.len()
        invariant
            i <= clients.len(),
            ws@.clients == clients,
            conn.extends(&before, update_requests(clients.subrange(0, i as int))),
        decreases clients.len() - i,
    {
        if let Some(win) = ws.windows.get(i) {
            proof {
                let upto = clients.subrange(0, i + 1);
                assert(upto.drop_last() =~= clients.subrange(0, i as int));
                assert(upto.last() == win@);
            }
            win.update_geometry(conn);
        }
        i += 1;
    }
    assert(clients.subrange(0, clients.len() as int) =~= clients);
}

/// Whether windows can be tiled on the screen.
fn is_tileable(screen: Geometry) -> (b: bool)
    ensures
        b == tileable(screen),
{
    screen.width >= 0 && screen.height >= 0 && screen.x <= i32::MAX - screen.width && screen.y
        <= i32::MAX - screen.height
}

/// The rectangle of the tiled window of the given rank among `n`.
fn slot_geometry(screen: Geometry, rank: usize, n: usize) -> (geom: Geometry)
    requires
        tileable(screen),
        rank < n,
    ensures
        geom == slot(screen, rank as int, n as int),
{
    let border: i32 = 2 * BORDER_WIDTH as i32;
    if n <= 1 {
        //account for window border
        Geometry {
            x: screen.x,
            y: screen.y,
            height: screen.height - border,
            width: screen.width - border,
        }
    } else {
        // cut the master in half
        let column = screen.width / 2 - border;
        if rank == 0 {
            Geometry { x: screen.x, y: screen.y, height: screen.height - border, width: column }
        } else {
            // the windows beside the master share the height
            let count = n - 1;
            let place = rank - 1;
            proof {
                lemma_share(screen.height as int, count as int, place as int);
            }
            let share = screen.height as usize / count;
            let offset = place * share;
            Geometry {
                x: screen.x + (column + border),
                y: screen.y + offset as i32,
                height: share as i32 - border,
                width: column,
            }
        }
    }
}

/// Gives every tiled client the rectangle of its rank.
fn calculate_geoms(ws: &mut Workspace, screen: &Screen)
    ensures
        final(ws)@ == old(ws)@.tile(screen.xwindow.geom),
        tileable(screen.xwindow.geom) ==> arranged(final(ws)@.clients, screen.xwindow.geom),
{
    let root_geom = screen.xwindow.geom;
    proof {
        if tileable(root_geom) {
            lemma_tile_arranged(ws@, root_geom);
        }
    }
    let n = ws.tiled_count();
    if n == 0 {
        ws.unset_master();
        return
    }
    if !is_tileable(root_geom) {
        return
    }
    let ghost clients = ws@.clients;
    let mut placed: usize = 0;
    let mut i: usize = 0;
    while i < ws.windows.len()
        invariant
            tileable(root_geom),
            n == tiled_count(clients),
            i <= clients.len(),
            placed == rank(clients, i as int),
            ws.master == old(ws).master,
            ws.layout == old(ws).layout,
            ws@.focus == old(ws)@.focus,
            ws@.clients.len() == clients.len(),
            forall|k: int| 0 <= k < i ==> ws@.clients[k] == tiled(clients, root_geom)[k],
            forall|k: int| i <= k < clients.len() ==> ws@.clients[k] == clients[k],
        decreases clients.len() - i,
    {
        let ghost ring = ws.windows@;
        proof {
            assert(clients.subrange(0, i + 1).drop_last() =~= clients.subrange(0, i as int));
            assert(ws@.clients[i as int] == clients[i as int]);
        }
        match ws.windows.get_mut(i) {
            Some(win) => {
                if win.is_tiled() {
                    proof {
                        lemma_rank(clients, i as int, i as int);
                    }
                    win.set_geometry(slot_geometry(root_geom, placed, n));
                    placed += 1;
                }
            },
            None => {},
        }
        proof {
            lemma_views_with_item(ring, i as int, ws.windows@.items[i as int]);
            assert(ws.windows@ == ring.with_item(i as int, ws.windows@.items[i as int]));
        }
        i += 1;
    }
    assert(ws@.clients =~= tiled(clients, root_geom));
}

} // verus!
