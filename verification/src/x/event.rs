//! What the X server reports, as plain values.
use vstd::prelude::*;
use crate::types::{Geometry, Point, XWinProperties};
use crate::x::base::{Atom, XWindowID};

verus! {

/// A window was configured, or asks to be.
#[derive(Debug, Clone, Copy)]
pub struct ConfigureEvent {
    /// The window in question.
    pub id: XWindowID,
    /// The geometry that it has, or asks for.
    pub geom: Geometry,
    /// Whether the window is the root window.
    pub is_root: bool,
    /// In a request, marks the parts of the geometry that the client set.
    pub value_mask: u16,
}

/// A property of a window changed.
#[derive(Debug, Clone, Copy)]
pub struct PropertyEvent {
    pub id: XWindowID,
    pub atom: Atom,
    pub time: u32,
}

/// A key went down.
#[derive(Debug, Clone, Copy)]
pub struct KeypressEvent {
    /// The modifiers that were down with it.
    pub mask: u32,
    pub keysym: u32,
}

/// A pointer button went down.
#[derive(Debug, Clone, Copy)]
pub struct ButtonEvent {
    /// The window under the pointer, a child of the root; `NONE` where the
    /// pointer is over the root itself.
    pub child: XWindowID,
    /// Where the pointer is, relative to the root.
    pub root_x: i16,
    pub root_y: i16,
    /// The number of the button.
    pub detail: u8,
}

/// The pointer entered a window.
#[derive(Debug, Clone, Copy)]
pub struct EnterEvent {
    /// The window that was entered.
    pub id: XWindowID,
    /// How the crossing came about.
    pub mode: u8,
}

/// What the server said of a window when it was asked.
pub struct WindowInfo {
    /// The kinds of window that the client declares it to be.
    pub window_type: Option<Vec<Atom>>,
    pub properties: XWinProperties,
    /// `None` where the server could not tell.
    pub geometry: Option<Geometry>,
}

/// The data of a message from a client, in one of the three formats of
/// the protocol.
#[derive(Debug, Clone, Copy)]
pub enum ClientMessageData {
    U8([u8; 20]),
    U16([u16; 10]),
    U32([u32; 5]),
}

impl ClientMessageData {
    pub fn is_u8(&self) -> (b: bool)
        ensures
            b == (self is U8),
    {
        if let Self::U8(_) = self {
            return true
        }
        false
    }

    pub fn is_u16(&self) -> (b: bool)
        ensures
            b == (self is U16),
    {
        if let Self::U16(_) = self {
            return true
        }
        false
    }

    pub fn is_u32(&self) -> (b: bool)
        ensures
            b == (self is U32),
    {
        if let Self::U32(_) = self {
            return true
        }
        false
    }
}

/// An event as the window manager takes it.
pub enum XEvent {
    ConfigureNotify(ConfigureEvent),
    ConfigureRequest(ConfigureEvent),
    /// A client asks for its window to be shown. The flag says whether the
    /// window asks to be left alone by window managers.
    MapRequest(XWindowID, bool, WindowInfo),
    MapNotify(XWindowID),
    UnmapNotify(XWindowID),
    DestroyNotify(XWindowID),
    EnterNotify(EnterEvent),
    LeaveNotify(XWindowID),
    /// The pointer moved, to this place relative to the root.
    MotionNotify(Point),
    ReparentNotify(XWindowID),
    PropertyNotify(PropertyEvent),
    KeyPress(KeypressEvent),
    KeyRelease,
    ButtonPress(ButtonEvent),
    ButtonRelease,
    ClientMessage(XWindowID, ClientMessageData),
    Unknown(u8),
}

} // verus!
