//! Filesystems: the overlay root and snapshots of it.
pub mod overlay;
pub mod snapshot;
