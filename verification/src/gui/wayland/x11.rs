//! The X11 forwarding bridge.
use vstd::prelude::*;
use crate::gui::wayland::DisplayError;

verus! {

pub struct X11Bridge;

impl X11Bridge {
    pub fn new() -> (r: Self) {
        Self
    }

    /// Start the X11 bridge. Nothing is started yet; the call always
    /// succeeds.
    pub fn init(&self) -> (r: Result<(), DisplayError>)
        ensures
            r is Ok,
    {
        Ok(())
    }
}

} // verus!
