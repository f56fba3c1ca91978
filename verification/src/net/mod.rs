//! Networking.
pub mod slirp;
