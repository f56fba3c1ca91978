//! Display bridges: Wayland, X11 and a web display.
pub mod wayland;
