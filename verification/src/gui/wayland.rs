//! The Wayland bridge, which forwards the Wayland display protocol to the
//! Android surface.
use vstd::prelude::*;
use crate::text;

pub mod web;
pub mod x11;

verus! {

/// The Wayland bridge.
pub struct WaylandBridge;

/// Why a display bridge failed.
#[derive(Debug, Clone, Copy, PartialEq, Eq, Structural)]
pub enum DisplayError {
    Unavailable,
}

impl WaylandBridge {
    pub fn new() -> (r: Self) {
        Self
    }

    /// The runtime directory that holds the Wayland socket.
    pub fn runtime_dir() -> (r: String)
        ensures
            r@ == "/run/user/1000"@,
    {
        text::owned("/run/user/1000")
    }

    /// The Wayland socket inside the container.
    pub fn socket_path() -> (r: String)
        ensures
            r@ == "/run/user/1000/wayland-0"@,
    {
        text::owned("/run/user/1000/wayland-0")
    }

    /// Start the compositor that renders to the Android surface. Nothing is
    /// started yet; the call always succeeds.
    pub fn start_compositor(&self) -> (r: Result<(), DisplayError>)
        ensures
            r is Ok,
    {
        Ok(())
    }
}

} // verus!
