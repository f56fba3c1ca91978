//! Snapshots of the filesystem layers.
use vstd::prelude::*;
use crate::text;

pub mod image;

verus! {

/// The snapshot manager of a base directory.
pub struct SnapshotManager {
    pub base_dir: String,
}

impl SnapshotManager {
    pub fn new(base_dir: &str) -> (r: Self)
        ensures
            r.base_dir@ == base_dir@,
    {
        Self { base_dir: text::owned(base_dir) }
    }

    /// The directory that holds the snapshots.
    pub fn snapshots_dir(&self) -> (r: String)
        ensures
            r@ == self.base_dir@ + "/snapshots"@,
    {
        text::concat(self.base_dir.as_str(), "/snapshots")
    }

    /// The directory of snapshot `name`.
    pub fn snapshot_path(&self, name: &str) -> (r: String)
        ensures
            r@ == self.base_dir@ + "/snapshots/"@ + name@,
    {
        text::concat3(self.base_dir.as_str(), "/snapshots/", name)
    }

    /// The arguments of the copy that fills a snapshot on Android:
    /// copy-on-write where the filesystem supports it.
    pub fn reflink_copy_args(&self, snap_path: &str) -> (r: Vec<String>)
        ensures
            text::views(r@) == seq!["-a"@, "--reflink=auto"@, self.base_dir@, snap_path@],
    {
        let mut v: Vec<String> = Vec::new();
        v.push(text::owned("-a"));
        v.push(text::owned("--reflink=auto"));
        v.push(self.base_dir.clone());
        v.push(text::owned(snap_path));
        assert(text::views(v@) =~= seq!["-a"@, "--reflink=auto"@, self.base_dir@, snap_path@]);
        v
    }
}

} // verus!
