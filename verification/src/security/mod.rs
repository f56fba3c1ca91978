//! Seccomp profiles and capability management.
pub mod capabilities;
pub mod seccomp;
