//! The state engine of a tiling and floating window manager for X11.
//!
//! The library decides which rectangle each managed window occupies, which
//! window holds the focus and which one is the master of a tiled workspace.
//! It never talks to the server itself: every operation queues the requests
//! that the owner of the connection has to send.

pub mod config;
pub mod desktop;
pub mod layout;
pub mod ring;
pub mod types;
pub mod utils;
pub mod window;
pub mod wm;
pub mod workspace;
pub mod x;

pub use crate::ring::{Ring, Selector};
pub use crate::window::{Client, ClientRing};
pub use crate::wm::WindowManager;
pub use crate::workspace::Workspace;
