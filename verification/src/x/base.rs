//! Identifiers and the low-level window record.
use vstd::prelude::*;
use crate::types::Geometry;

verus! {

/// An identifier that the server gave to an interned name.
pub type Atom = u32;

/// The handle that the server gave to a window.
pub type XWindowID = u32;

/// A window as the server knows it: its handle and its geometry.
#[derive(Debug, Clone, Copy)]
pub struct XWindow {
    pub id: XWindowID,
    pub geom: Geometry,
}

impl PartialEq for XWindow {
    /// Two records are equal where they name the same window.
    #[inline(always)]
    fn eq(&self, other: &Self) -> (b: bool) {
        self.id == other.id
    }
}

impl vstd::std_specs::cmp::PartialEqSpecImpl for XWindow {
    open spec fn obeys_eq_spec() -> bool {
        true
    }

    open spec fn eq_spec(&self, other: &Self) -> bool {
        self.id == other.id
    }
}

impl From<XWindowID> for XWindow {
    fn from(from: XWindowID) -> (w: Self) {
        Self { id: from, geom: Geometry { x: 0, y: 0, width: 0, height: 0 } }
    }
}

impl vstd::std_specs::convert::FromSpecImpl<XWindowID> for XWindow {
    open spec fn obeys_from_spec() -> bool {
        true
    }

    open spec fn from_spec(from: XWindowID) -> XWindow {
        XWindow::unplaced(from)
    }
}

impl XWindow {
    /// The record of a window of which no geometry is known yet.
    pub open spec fn unplaced(id: XWindowID) -> XWindow {
        XWindow { id, geom: Geometry { x: 0, y: 0, width: 0, height: 0 } }
    }

    /// Takes the geometry that the server reported for the window. Where
    /// the query failed the record keeps what it has.
    pub fn set_geometry_conn(&mut self, reply: Option<Geometry>)
        ensures
            final(self).id == old(self).id,
            final(self).geom == (match reply {
                Some(geom) => geom,
                None => old(self).geom,
            }),
    {
        match reply {
            Some(geom) => {
                self.geom = geom;
            },
            None => {},
        }
    }

    /// Sets the geometry.
    pub fn set_geometry(&mut self, geom: Geometry)
        ensures
            *final(self) == (XWindow { geom, ..*old(self) }),
    {
        self.geom = geom;
    }

    /// Changes the width by a given difference.
    pub fn update_width(&mut self, dx: i32)
        requires
            i32::MIN <= old(self).geom.width + dx <= i32::MAX,
        ensures
            *final(self) == (XWindow {
                geom: Geometry { width: (old(self).geom.width + dx) as i32, ..old(self).geom },
                ..*old(self)
            }),
    {
        self.geom.width += dx;
    }

    /// Changes the height by a given difference.
    pub fn update_height(&mut self, dy: i32)
        requires
            i32::MIN <= old(self).geom.height + dy <= i32::MAX,
        ensures
            *final(self) == (XWindow {
                geom: Geometry { height: (old(self).geom.height + dy) as i32, ..old(self).geom },
                ..*old(self)
            }),
    {
        self.geom.height += dy;
    }

    /// Changes the x coordinate by a given difference.
    pub fn update_pos_x(&mut self, dx: i32)
        requires
            i32::MIN <= old(self).geom.x + dx <= i32::MAX,
        ensures
            *final(self) == (XWindow {
                geom: Geometry { x: (old(self).geom.x + dx) as i32, ..old(self).geom },
                ..*old(self)
            }),
    {
        self.geom.x += dx;
    }

    /// Changes the y coordinate by a given difference.
    pub fn update_pos_y(&mut self, dy: i32)
        requires
            i32::MIN <= old(self).geom.y + dy <= i32::MAX,
        ensures
            *final(self) == (XWindow {
                geom: Geometry { y: (old(self).geom.y + dy) as i32, ..old(self).geom },
                ..*old(self)
            }),
    {
        self.geom.y += dy;
    }
}

/// The atoms that the window manager interned at startup.
#[allow(non_snake_case)]
#[derive(Debug, Clone, Copy)]
pub struct InternedAtoms {
    pub SUPPORTED: Atom,
    pub WM_DELETE_WINDOW: Atom,
    pub WM_TAKE_FOCUS: Atom,
    pub WM_PROTOCOLS: Atom,
    pub WM_WINDOW_TYPE_DESKTOP: Atom,
    pub WM_WINDOW_TYPE_DOCK: Atom,
    pub WM_WINDOW_TYPE_TOOLBAR: Atom,
    pub WM_WINDOW_TYPE_MENU: Atom,
    pub WM_WINDOW_TYPE_UTILITY: Atom,
    pub WM_WINDOW_TYPE_SPLASH: Atom,
    pub WM_WINDOW_TYPE_DIALOG: Atom,
    pub WM_WINDOW_TYPE_DROPDOWN_MENU: Atom,
    pub WM_WINDOW_TYPE_NOTIFICATION: Atom,
    pub WM_WINDOW_TYPE_NORMAL: Atom,
    pub WM_STATE: Atom,
    pub WM_STATE_MODAL: Atom,
    pub WM_STATE_STICKY: Atom,
    pub WM_STATE_MAXIMIZED_VERT: Atom,
    pub WM_STATE_MAXIMIZED_HORZ: Atom,
    pub WM_STATE_SHADED: Atom,
    pub WM_STATE_SKIP_TASKBAR: Atom,
    pub WM_STATE_SKIP_PAGER: Atom,
    pub WM_STATE_HIDDEN: Atom,
    pub WM_STATE_FULLSCREEN: Atom,
    pub WM_STATE_ABOVE: Atom,
    pub WM_STATE_BELOW: Atom,
    pub WM_STATE_DEMANDS_ATTENTION: Atom,
}

impl InternedAtoms {
    /// One of the atoms by its number: the atom of the supported
    /// protocols, of the request to close a window, of the protocols of a
    /// client, of the normal window, the dialog, the toolbar, the utility
    /// and the splash screen, and of the state of a window. Beyond these,
    /// the atom that names nothing.
    pub fn index(&self, idx: usize) -> (atom: Atom)
        ensures
            atom == (if idx == 0 {
                self.SUPPORTED
            } else if idx == 1 {
                self.WM_DELETE_WINDOW
            } else if idx == 2 {
                self.WM_PROTOCOLS
            } else if idx == 3 {
                self.WM_WINDOW_TYPE_NORMAL
            } else if idx == 4 {
                self.WM_WINDOW_TYPE_DIALOG
            } else if idx == 5 {
                self.WM_WINDOW_TYPE_TOOLBAR
            } else if idx == 6 {
                self.WM_WINDOW_TYPE_UTILITY
            } else if idx == 7 {
                self.WM_WINDOW_TYPE_SPLASH
            } else if idx == 8 {
                self.WM_STATE
            } else {
                0
            }),
    {
        match idx {
            0 => self.SUPPORTED,
            1 => self.WM_DELETE_WINDOW,
            2 => self.WM_PROTOCOLS,
            3 => self.WM_WINDOW_TYPE_NORMAL,
            4 => self.WM_WINDOW_TYPE_DIALOG,
            5 => self.WM_WINDOW_TYPE_TOOLBAR,
            6 => self.WM_WINDOW_TYPE_UTILITY,
            7 => self.WM_WINDOW_TYPE_SPLASH,
            8 => self.WM_STATE,
            _ => 0,
        }
    }
}

} // verus!
