//! The window manager's side of the conversation with the X server.
//!
//! Nothing here opens a socket. Requests to the server are queued on an
//! [`XConn`], in the order in which they are to be sent, and what the server
//! said arrives as plain values.

pub mod base;
pub mod event;
pub mod ewmh;
pub mod proto;
pub mod xserver;

pub use self::base::{Atom, InternedAtoms, XWindow, XWindowID};
pub use self::event::XEvent;
pub use self::xserver::{XConn, XRequest};
