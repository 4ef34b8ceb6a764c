//! Plain data shared by every part of the window manager.
use vstd::prelude::*;
use crate::layout::LayoutType;
use crate::x::base::{Atom, InternedAtoms};
use crate::x::proto::{mod_mask_1, mod_mask_4, mod_mask_control, mod_mask_shift};
use crate::x::xserver::XConn;

verus! {

/// A direction in which to walk a ring of windows or workspaces.
#[derive(Debug, Clone, Copy, PartialEq, Eq, Hash, Structural)]
pub enum Direction {
    Forward,
    Backward,
}

/// A position on the screen, in pixels.
#[derive(Debug, Clone, Copy, PartialEq, Eq, Structural)]
pub struct Point {
    pub x: i32,
    pub y: i32,
}

/// The rectangle that a window occupies: its top-left corner and its size,
/// the border not included.
#[derive(Debug, Clone, Copy, PartialEq, Eq, Structural)]
pub struct Geometry {
    pub x: i32,
    pub y: i32,
    pub width: i32,
    pub height: i32,
}

impl Geometry {
    /// The geometry read from a tuple `(x, y, width, height)`.
    pub open spec fn of(t: (i32, i32, i32, i32)) -> Geometry {
        Geometry { x: t.0, y: t.1, width: t.2, height: t.3 }
    }

    /// What a window gets when the server cannot tell its geometry.
    pub open spec fn fallback() -> Geometry {
        Geometry { x: 0, y: 0, width: 160, height: 100 }
    }

    /// The geometry that a query gave, or the fallback where it gave none.
    pub open spec fn or_fallback(reply: Option<Geometry>) -> Geometry {
        match reply {
            Some(r) => r,
            None => Geometry::fallback(),
        }
    }

    /// The geometry that a query gave, or the fallback where it gave none.
    pub fn or_default(reply: Option<Geometry>) -> (g: Geometry)
        ensures
            g == Geometry::or_fallback(reply),
    {
        match reply {
            Some(r) => r,
            None => Geometry { x: 0, y: 0, width: 160, height: 100 },
        }
    }
}

impl From<(i32, i32, i32, i32)> for Geometry {
    fn from(from: (i32, i32, i32, i32)) -> (g: Self) {
        Self { x: from.0, y: from.1, width: from.2, height: from.3 }
    }
}

impl vstd::std_specs::convert::FromSpecImpl<(i32, i32, i32, i32)> for Geometry {
    open spec fn obeys_from_spec() -> bool {
        true
    }

    open spec fn from_spec(from: (i32, i32, i32, i32)) -> Geometry {
        Geometry::of(from)
    }
}

impl Default for Geometry {
    fn default() -> (g: Self)
        ensures
            g == Geometry::fallback(),
    {
        Geometry { x: 0, y: 0, width: 160, height: 100 }
    }
}

/// Whether the client shows a window, hides it or shows it as an icon.
#[derive(Debug, Clone, Copy, PartialEq, Eq, Structural)]
pub enum WindowState {
    Normal,
    Withdrawn,
    Iconic,
}

impl Default for WindowState {
    fn default() -> (s: Self)
        ensures
            s == WindowState::Normal,
    {
        Self::Normal
    }
}

/// Whether a window takes part in the tiling or floats above it.
#[derive(Debug, Clone, Copy, PartialEq, Eq, Structural)]
pub enum WinLayoutState {
    Tiled,
    Floating,
}

impl WinLayoutState {
    /// The state that a window starts in under a layout: floating under
    /// the floating layout, tiled under every other.
    pub open spec fn under(layout: LayoutType) -> WinLayoutState {
        if layout == LayoutType::Floating {
            WinLayoutState::Floating
        } else {
            WinLayoutState::Tiled
        }
    }

    /// The other state.
    pub open spec fn toggled(self) -> WinLayoutState {
        match self {
            WinLayoutState::Tiled => WinLayoutState::Floating,
            WinLayoutState::Floating => WinLayoutState::Tiled,
        }
    }
}

impl From<LayoutType> for WinLayoutState {
    #[inline]
    fn from(from: LayoutType) -> (s: WinLayoutState) {
        if let LayoutType::Floating = from {
            return Self::Floating
        }
        Self::Tiled
    }
}

impl vstd::std_specs::convert::FromSpecImpl<LayoutType> for WinLayoutState {
    open spec fn obeys_from_spec() -> bool {
        true
    }

    open spec fn from_spec(from: LayoutType) -> WinLayoutState {
        WinLayoutState::under(from)
    }
}

/// The style for the window border.
#[derive(Debug, Clone, Copy, PartialEq, Eq, Structural)]
pub enum BorderStyle {
    Urgent,
    Focused,
    Unfocused,
}

/// The size hints that a client left on its window.
#[derive(Debug, Copy, Clone, PartialEq, Eq)]
pub struct SizeHints {
    pub position: Option<(i32, i32)>,
    pub size: Option<(i32, i32)>,
    pub min_size: Option<(i32, i32)>,
    pub max_size: Option<(i32, i32)>,
    pub resize: Option<(i32, i32)>,
    pub min_aspect: Option<(i32, i32)>,
    pub max_aspect: Option<(i32, i32)>,
    pub base: Option<(i32, i32)>,
    pub gravity: Option<u32>,
}

/// The hints that a client left on its window.
#[derive(Debug, Clone, Copy, PartialEq, Eq, Structural)]
pub struct WmHints {
    pub state: WindowState,
    pub urgent: bool,
}

impl WmHints {
    /// The hints as the window manager keeps them, from what the client
    /// set: the first of normal, iconic and withdrawn that is set gives the
    /// state, and a client that says nothing is normal and not urgent.
    pub fn from_flags(normal: bool, iconic: bool, withdrawn: bool, urgent: Option<bool>) -> (hints:
        Self)
        ensures
            hints.state == (if normal {
                WindowState::Normal
            } else if iconic {
                WindowState::Iconic
            } else if withdrawn {
                WindowState::Withdrawn
            } else {
                WindowState::Normal
            }),
            hints.urgent == (urgent == Some(true)),
    {
        WmHints {
            state: if normal {
                WindowState::Normal
            } else if iconic {
                WindowState::Iconic
            } else if withdrawn {
                WindowState::Withdrawn
            } else {
                WindowState::Normal
            },
            urgent: if let Some(u) = urgent {
                u
            } else {
                false
            },
        }
    }
}

/// The properties that a client left on its window, as far as the window
/// manager reads them. A property that the server could not deliver is
/// empty or absent.
pub struct XWinProperties {
    pub wm_name: String,
    pub wm_icon_name: String,
    pub wm_size_hints: Option<SizeHints>,
    pub wm_hints: Option<WmHints>,
    /// Instance and class.
    pub wm_class: (String, String),
    pub wm_protocols: Option<Vec<Atom>>,
    pub wm_state: WindowState,
}

impl XWinProperties {
    pub fn wm_name(&self) -> (name: &str)
        ensures
            name@ == self.wm_name@,
    {
        self.wm_name.as_str()
    }

    pub fn wm_icon_name(&self) -> (name: &str)
        ensures
            name@ == self.wm_icon_name@,
    {
        self.wm_icon_name.as_str()
    }

    #[inline]
    pub fn wm_size_hints(&self) -> (hints: Option<SizeHints>)
        ensures
            hints == self.wm_size_hints,
    {
        self.wm_size_hints
    }

    pub fn wm_hints(&self) -> (hints: Option<WmHints>)
        ensures
            hints == self.wm_hints,
    {
        self.wm_hints
    }

    pub fn wm_class(&self) -> (class: (&str, &str))
        ensures
            class.0@ == self.wm_class.0@,
            class.1@ == self.wm_class.1@,
    {
        (self.wm_class.0.as_str(), self.wm_class.1.as_str())
    }

    /// The protocols that the client takes part in.
    pub fn window_type(&self) -> (protocols: Option<&[Atom]>)
        ensures
            match protocols {
                Some(p) => self.wm_protocols matches Some(v) && p@ == v@,
                None => self.wm_protocols is None,
            },
    {
        if let Some(prtcls) = &self.wm_protocols {
            return Some(prtcls.as_slice())
        } else {
            None
        }
    }

    pub fn wm_state(&self) -> (state: WindowState)
        ensures
            state == self.wm_state,
    {
        self.wm_state
    }
}

/// What a key binding sets off.
#[derive(Debug, Clone, Copy, PartialEq, Eq)]
pub enum KeyAction {
    /// Switch to the workspace with this index.
    GotoWorkspace(usize),
    /// Send the focused window to the workspace with this index.
    SendWindowTo(usize),
    /// Make the focused window floating if it is tiled, and tiled if it
    /// floats.
    ToggleFocusedState,
    /// Move the focus one window on.
    CycleFocus(Direction),
    /// Switch to the workspace beside the current one.
    CycleWorkspace(Direction),
    /// Close the focused window.
    CloseWindow,
    /// Run a program: its name, then its arguments.
    RunExternal(&'static [&'static str]),
    /// Leave the window manager.
    Quit,
}

/// A key binding: the modifiers, the key, and what they set off.
pub type Keybind = (u32, u32, KeyAction);

/// The key that goes with every binding of the window manager.
#[derive(Debug, Copy, Clone, PartialEq, Eq, Structural)]
pub enum ModKey {
    Meta,
    Alt,
}

/// The modifier mask of the shift key.
pub fn shift() -> (mask: u32)
    ensures
        mask == 1,
{
    mod_mask_shift()
}

/// The modifier mask of the control key.
pub fn ctrl() -> (mask: u32)
    ensures
        mask == 4,
{
    mod_mask_control()
}

/// The modifier mask of the key that goes with every binding.
pub fn modkey(key: ModKey) -> (mask: u32)
    ensures
        mask == (match key {
            ModKey::Meta => 64u32,
            ModKey::Alt => 8u32,
        }),
{
    match key {
        ModKey::Meta => mod_mask_4(),
        ModKey::Alt => mod_mask_1(),
    }
}

/// The states that a window can ask for by the conventions of extended
/// window managers.
#[derive(Clone, Copy, Debug, PartialEq, Eq, Structural)]
pub enum NetWindowState {
    Modal,
    Sticky,
    MaxVert,
    MaxHorz,
    Shaded,
    SkipTaskbar,
    SkipPager,
    Hidden,
    Fullscreen,
    Above,
    Below,
    Urgent,
}

impl NetWindowState {
    /// The atom that stands for the state.
    pub open spec fn atom(self, atoms: InternedAtoms) -> Atom {
        match self {
            NetWindowState::Modal => atoms.WM_STATE_MODAL,
            NetWindowState::Sticky => atoms.WM_STATE_STICKY,
            NetWindowState::MaxVert => atoms.WM_STATE_MAXIMIZED_VERT,
            NetWindowState::MaxHorz => atoms.WM_STATE_MAXIMIZED_HORZ,
            NetWindowState::Shaded => atoms.WM_STATE_SHADED,
            NetWindowState::SkipTaskbar => atoms.WM_STATE_SKIP_TASKBAR,
            NetWindowState::SkipPager => atoms.WM_STATE_SKIP_PAGER,
            NetWindowState::Hidden => atoms.WM_STATE_HIDDEN,
            NetWindowState::Fullscreen => atoms.WM_STATE_FULLSCREEN,
            NetWindowState::Above => atoms.WM_STATE_ABOVE,
            NetWindowState::Below => atoms.WM_STATE_BELOW,
            NetWindowState::Urgent => atoms.WM_STATE_DEMANDS_ATTENTION,
        }
    }

    /// The place of the state in the order in which atoms are compared.
    pub open spec fn ordinal(self) -> nat {
        match self {
            NetWindowState::Modal => 0,
            NetWindowState::Sticky => 1,
            NetWindowState::MaxVert => 2,
            NetWindowState::MaxHorz => 3,
            NetWindowState::Shaded => 4,
            NetWindowState::SkipTaskbar => 5,
            NetWindowState::SkipPager => 6,
            NetWindowState::Hidden => 7,
            NetWindowState::Fullscreen => 8,
            NetWindowState::Above => 9,
            NetWindowState::Below => 10,
            NetWindowState::Urgent => 11,
        }
    }

    /// The state that an atom stands for: the first, in the order of the
    /// states, whose atom it is.
    pub fn from_atom(atom: Atom, conn: &XConn) -> (r: Option<Self>)
        ensures
            match r {
                Some(state) => state.atom(conn.atoms) == atom && forall|other: NetWindowState|
                    other.ordinal() < state.ordinal() ==> #[trigger] other.atom(conn.atoms) != atom,
                None => forall|other: NetWindowState| #[trigger] other.atom(conn.atoms) != atom,
            },
    {
        let atoms = &conn.atoms;
        if atom == atoms.WM_STATE_MODAL {
            return Some(Self::Modal)
        } else if atom == atoms.WM_STATE_STICKY {
            return Some(Self::Sticky)
        } else if atom == atoms.WM_STATE_MAXIMIZED_VERT {
            return Some(Self::MaxVert)
        } else if atom == atoms.WM_STATE_MAXIMIZED_HORZ {
            return Some(Self::MaxHorz)
        } else if atom == atoms.WM_STATE_SHADED {
            return Some(Self::Shaded)
        } else if atom == atoms.WM_STATE_SKIP_TASKBAR {
            return Some(Self::SkipTaskbar)
        } else if atom == atoms.WM_STATE_SKIP_PAGER {
            return Some(Self::SkipPager)
        } else if atom == atoms.WM_STATE_HIDDEN {
            return Some(Self::Hidden)
        } else if atom == atoms.WM_STATE_FULLSCREEN {
            return Some(Self::Fullscreen)
        } else if atom == atoms.WM_STATE_ABOVE {
            return Some(Self::Above)
        } else if atom == atoms.WM_STATE_BELOW {
            return Some(Self::Below)
        } else if atom == atoms.WM_STATE_DEMANDS_ATTENTION {
            return Some(Self::Urgent)
        } else {
            return None
        }
    }
}

/// The kinds of window that a client can declare.
#[derive(Debug, Clone, Copy, PartialEq, Eq, Structural)]
pub enum WindowType {
    Desktop,
    Dock,
    Toolbar,
    Menu,
    Utility,
    Splash,
    Dialog,
    Dropdown,
    Notification,
    Normal,
}

impl WindowType {
    /// The atom that stands for the kind.
    pub open spec fn atom(self, atoms: InternedAtoms) -> Atom {
        match self {
            WindowType::Desktop => atoms.WM_WINDOW_TYPE_DESKTOP,
            WindowType::Dock => atoms.WM_WINDOW_TYPE_DOCK,
            WindowType::Toolbar => atoms.WM_WINDOW_TYPE_TOOLBAR,
            WindowType::Menu => atoms.WM_WINDOW_TYPE_MENU,
            WindowType::Utility => atoms.WM_WINDOW_TYPE_UTILITY,
            WindowType::Splash => atoms.WM_WINDOW_TYPE_SPLASH,
            WindowType::Dialog => atoms.WM_WINDOW_TYPE_DIALOG,
            WindowType::Dropdown => atoms.WM_WINDOW_TYPE_DROPDOWN_MENU,
            WindowType::Notification => atoms.WM_WINDOW_TYPE_NOTIFICATION,
            WindowType::Normal => atoms.WM_WINDOW_TYPE_NORMAL,
        }
    }

    /// The place of the kind in the order in which atoms are compared.
    pub open spec fn ordinal(self) -> nat {
        match self {
            WindowType::Desktop => 0,
            WindowType::Dock => 1,
            WindowType::Toolbar => 2,
            WindowType::Menu => 3,
            WindowType::Utility => 4,
            WindowType::Splash => 5,
            WindowType::Dialog => 6,
            WindowType::Dropdown => 7,
            WindowType::Notification => 8,
            WindowType::Normal => 9,
        }
    }

    /// The kind of window that an atom stands for: the first, in the order
    /// of the kinds, whose atom it is.
    pub fn from_atom(atom: Atom, conn: &XConn) -> (r: Option<Self>)
        ensures
            match r {
                Some(kind) => kind.atom(conn.atoms) == atom && forall|other: WindowType|
                    other.ordinal() < kind.ordinal() ==> #[trigger] other.atom(conn.atoms) != atom,
                None => forall|other: WindowType| #[trigger] other.atom(conn.atoms) != atom,
            },
    {
        if atom == conn.atoms.WM_WINDOW_TYPE_DESKTOP {
            return Some(WindowType::Desktop)
        } else if atom == conn.atoms.WM_WINDOW_TYPE_DOCK {
            return Some(WindowType::Dock)
        } else if atom == conn.atoms.WM_WINDOW_TYPE_TOOLBAR {
            return Some(WindowType::Toolbar)
        } else if atom == conn.atoms.WM_WINDOW_TYPE_MENU {
            return Some(WindowType::Menu)
        } else if atom == conn.atoms.WM_WINDOW_TYPE_UTILITY {
            return Some(WindowType::Utility)
        } else if atom == conn.atoms.WM_WINDOW_TYPE_SPLASH {
            return Some(WindowType::Splash)
        } else if atom == conn.atoms.WM_WINDOW_TYPE_DIALOG {
            return Some(WindowType::Dialog)
        } else if atom == conn.atoms.WM_WINDOW_TYPE_DROPDOWN_MENU {
            return Some(WindowType::Dropdown)
        } else if atom == conn.atoms.WM_WINDOW_TYPE_NOTIFICATION {
            return Some(WindowType::Notification)
        } else if atom == conn.atoms.WM_WINDOW_TYPE_NORMAL {
            return Some(WindowType::Normal)
        } else {
            None
        }
    }
}

/// A list of atoms without the first occurrence of `atom`.
pub open spec fn without(atoms: Seq<Atom>, atom: Atom) -> Seq<Atom>
    decreases atoms.len(),
{
    if atoms.len() == 0 {
        atoms
    } else if atoms[0] == atom {
        atoms.drop_first()
    } else {
        seq![atoms[0]] + without(atoms.drop_first(), atom)
    }
}

/// The states that a window has asked for, as atoms, in the order in
/// which it asked.
#[derive(Debug, Clone)]
pub struct NetWindowStates {
    states: Vec<Atom>,
}

impl View for NetWindowStates {
    type V = Seq<Atom>;

    closed spec fn view(&self) -> Seq<Atom> {
        self.states@
    }
}

impl NetWindowStates {
    pub fn new() -> (states: Self)
        ensures
            states@ == Seq::<Atom>::empty(),
    {
        Self { states: Vec::new() }
    }

    /// The states that a list of atoms names.
    pub fn from_vec(from: Vec<Atom>) -> (states: Self)
        ensures
            states@ == from@,
    {
        Self { states: from }
    }

    /// The atoms, in their order.
    pub fn as_slice(&self) -> (atoms: &[Atom])
        ensures
            atoms@ == self@,
    {
        self.states.as_slice()
    }

    pub fn contains(&self, prop: Atom) -> (b: bool)
        ensures
            b == self@.contains(prop),
    {
        let mut i: usize = 0;
        while i < self.states.len()
            invariant
                forall|j: int| 0 <= j < i ==> self@[j] != prop,
            decreases self@.len() - i,
        {
            if self.states[i] == prop {
                return true
            }
            i += 1;
        }
        false
    }

    pub fn add(&mut self, prop: Atom)
        ensures
            final(self)@ == old(self)@.push(prop),
    {
        self.states.push(prop)
    }

    /// Takes the first occurrence of an atom out and hands it over. Hands
    /// over 0, and takes nothing out, where the atom does not occur.
    pub fn remove(&mut self, prop: Atom) -> (removed: Atom)
        ensures
            final(self)@ == without(old(self)@, prop),
            removed == (if old(self)@.contains(prop) {
                prop
            } else {
                0
            }),
    {
        let mut idx: usize = 0;
        proof {
            assert(self@.subrange(0, 0) + without(self@.subrange(0, self@.len() as int), prop)
                =~= without(self@, prop)) by {
                assert(self@.subrange(0, self@.len() as int) =~= self@);
            }
        }
        while idx < self.states.len()
            invariant
                idx <= self@.len(),
                self@ == old(self)@,
                forall|j: int| 0 <= j < idx ==> self@[j] != prop,
                without(self@, prop) == self@.subrange(0, idx as int) + without(
                    self@.subrange(idx as int, self@.len() as int),
                    prop,
                ),
            decreases self@.len() - idx,
        {
            proof {
                let rest = self@.subrange(idx as int, self@.len() as int);
                assert(rest.drop_first() =~= self@.subrange(idx + 1, self@.len() as int));
                assert(rest[0] == self@[idx as int]);
                assert(self@.subrange(0, idx as int) + seq![rest[0]] =~= self@.subrange(0, idx + 1));
                assert(self@.subrange(0, idx as int) + (seq![rest[0]] + without(
                    rest.drop_first(),
                    prop,
                )) =~= self@.subrange(0, idx as int) + seq![rest[0]] + without(
                    rest.drop_first(),
                    prop,
                ));
            }
            if self.states[idx] == prop {
                proof {
                    let rest = self@.subrange(idx as int, self@.len() as int);
                    assert(self@.subrange(0, idx as int) + rest.drop_first() =~= self@.remove(
                        idx as int,
                    ));
                }
                return self.states.remove(idx)
            }
            idx += 1;
        }
        proof {
            assert(self@.subrange(0, idx as int) =~= self@);
            assert(self@.subrange(idx as int, self@.len() as int).len() == 0);
            assert(self@ + Seq::<Atom>::empty() =~= self@);
        }
        0
    }
}

impl Default for NetWindowStates {
    fn default() -> (states: Self)
        ensures
            states@ == Seq::<Atom>::empty(),
    {
        Self::new()
    }
}

} // verus!
