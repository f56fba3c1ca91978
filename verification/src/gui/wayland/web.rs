//! The web display (VNC style).
use vstd::prelude::*;
use crate::gui::wayland::DisplayError;

verus! {

pub struct WebDisplay;

impl WebDisplay {
    pub fn new() -> (r: Self) {
        Self
    }

    /// Start the web display server on `port`. Nothing is started yet; the
    /// call always succeeds.
    pub fn start(&self, port: u16) -> (r: Result<(), DisplayError>)
        ensures
            r is Ok,
    {
        Ok(())
    }
}

} // verus!
