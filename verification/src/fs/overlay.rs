//! The overlay filesystem: kernel overlayfs when available, FUSE
//! overlayfs as the fallback, a bind mount of the lower layer without an
//! upper one.
use vstd::prelude::*;
use crate::errno;
use crate::namespace::mount::{mount_view, MountFlag, MountOp};
use crate::text;

verus! {

/// An overlay of a writable upper layer on a read-only lower one.
pub struct OverlayFS {
    pub lower: String,
    pub upper: Option<String>,
    pub work: Option<String>,
    pub merged: String,
}

/// Why an overlay operation failed.
#[derive(Debug)]
pub enum OverlayError {
    /// The lower directory does not exist.
    LowerMissing(String),
    /// The kernel refused the overlay mount with this error number.
    MountFailed(i32),
    /// Neither kernel nor FUSE overlayfs could mount the overlay.
    NoOverlay,
}

/// How the overlay is mounted.
#[derive(Debug)]
pub enum OverlayMount {
    /// A kernel overlayfs mount; its outcome is judged by `overlay_outcome`.
    Overlay(MountOp),
    /// A recursive bind mount of the lower layer; the overlay counts as
    /// mounted whatever the bind mount returns.
    BindLower(MountOp),
}

/// Where a kernel overlayfs mount leaves the overlay.
#[derive(Debug, Clone, Copy, PartialEq, Eq, Structural)]
pub enum OverlayStatus {
    /// The overlay is mounted.
    Mounted,
    /// The kernel lacks or forbids overlayfs: try FUSE overlayfs.
    TryFuse,
}

/// Where the merged view is mounted.
pub open spec fn merged_dir() -> Seq<char> {
    "/tmp/astrashell-merged"@
}

/// The overlayfs options for the layers.
pub open spec fn overlay_options(lower: Seq<char>, upper: Seq<char>, work: Seq<char>) -> Seq<char> {
    "lowerdir="@ + lower + ",upperdir="@ + upper + ",workdir="@ + work
}

/// Whether the lower directory exists on disk. What the filesystem holds
/// is outside the library: nothing is stated of the answer.
#[verifier::external_body]
fn path_exists(path: &str) -> (r: bool) {
    std::path::Path::new(path).exists()
}

/// The view of an optional string argument.
pub open spec fn arg_view(o: Option<&str>) -> Option<Seq<char>> {
    match o {
        Some(s) => Some(s@),
        None => None,
    }
}

/// The view of an optional string.
pub open spec fn opt_view(o: Option<String>) -> Option<Seq<char>> {
    match o {
        Some(s) => Some(s@),
        None => None,
    }
}

fn optional_owned(s: Option<&str>) -> (r: Option<String>)
    ensures
        opt_view(r) == arg_view(s),
{
    match s {
        Some(x) => Some(text::owned(x)),
        None => None,
    }
}

impl OverlayFS {
    /// An overlay of the given layers; the lower directory must exist.
    pub fn new(lower: &str, upper: Option<&str>, work: Option<&str>) -> (r: Result<Self, OverlayError>)
        ensures
            match r {
                Ok(o) => o.lower@ == lower@ && opt_view(o.upper) == arg_view(upper) && opt_view(o.work)
                    == arg_view(work) && o.merged@ == merged_dir(),
                Err(e) => e matches OverlayError::LowerMissing(l) && l@ == lower@,
            },
    {
        let exists = path_exists(lower);
        Self::with_lower_check(lower, upper, work, exists)
    }

    /// An overlay of the given layers, where `lower_exists` tells whether the
    /// lower directory exists: an error when it does not.
    pub fn with_lower_check(lower: &str, upper: Option<&str>, work: Option<&str>, lower_exists: bool) -> (r: Result<Self, OverlayError>)
        ensures
            lower_exists ==> (r matches Ok(o) && o.lower@ == lower@ && opt_view(o.upper) == arg_view(
                upper,
            ) && opt_view(o.work) == arg_view(work) && o.merged@ == merged_dir()),
            !lower_exists ==> (r matches Err(OverlayError::LowerMissing(l)) && l@ == lower@),
    {
        if !lower_exists {
            return Err(OverlayError::LowerMissing(text::owned(lower)));
        }
        Ok(
            Self {
                lower: text::owned(lower),
                upper: optional_owned(upper),
                work: optional_owned(work),
                merged: text::owned("/tmp/astrashell-merged"),
            },
        )
    }

    /// How to mount: kernel overlayfs on the merged directory, with nodev
    /// and the layer options, when both an upper and a work directory are
    /// given; a recursive bind mount of the lower layer on the merged
    /// directory otherwise.
    pub fn mount_plan(&self) -> (r: OverlayMount)
        ensures
            match (self.upper, self.work) {
                (Some(u), Some(w)) => r matches OverlayMount::Overlay(op) && mount_view(op) == (
                    None::<Seq<char>>,
                    self.merged@,
                    Some("overlay"@),
                    seq![MountFlag::NoDev],
                    Some(overlay_options(self.lower@, u@, w@)),
                ),
                _ => r matches OverlayMount::BindLower(op) && mount_view(op) == (
                    Some(self.lower@),
                    self.merged@,
                    None::<Seq<char>>,
                    seq![MountFlag::Bind, MountFlag::Recursive],
                    None::<Seq<char>>,
                ),
            },
    {
        match (&self.upper, &self.work) {
            (Some(u), Some(w)) => {
                let mut options = text::concat3("lowerdir=", self.lower.as_str(), ",upperdir=");
                options.append(u.as_str());
                options.append(",workdir=");
                options.append(w.as_str());
                let mut flags: Vec<MountFlag> = Vec::new();
                flags.push(MountFlag::NoDev);
                assert(flags@ =~= seq![MountFlag::NoDev]);
                OverlayMount::Overlay(
                    MountOp {
                        source: None,
                        target: text::owned(self.merged.as_str()),
                        fstype: Some(text::owned("overlay")),
                        flags,
                        data: Some(options),
                    },
                )
            },
            _ => {
                let mut flags: Vec<MountFlag> = Vec::new();
                flags.push(MountFlag::Bind);
                flags.push(MountFlag::Recursive);
                assert(flags@ =~= seq![MountFlag::Bind, MountFlag::Recursive]);
                OverlayMount::BindLower(
                    MountOp {
                        source: Some(text::owned(self.lower.as_str())),
                        target: text::owned(self.merged.as_str()),
                        fstype: None,
                        flags,
                        data: None,
                    },
                )
            },
        }
    }

    /// Judge the kernel overlayfs mount from the value mount(2) returned and
    /// the error number it left: mounted on 0; FUSE overlayfs is tried when
    /// the kernel lacks overlayfs or forbids it (ENOSYS, ENODATA, EPERM);
    /// any other error is final.
    pub fn overlay_outcome(ret: i64, err: i32) -> (r: Result<OverlayStatus, OverlayError>)
        ensures
            ret == 0 ==> r == Ok::<OverlayStatus, OverlayError>(OverlayStatus::Mounted),
            ret != 0 && (err == 38 || err == 61 || err == 1) ==> r == Ok::<OverlayStatus, OverlayError>(
                OverlayStatus::TryFuse,
            ),
            ret != 0 && !(err == 38 || err == 61 || err == 1) ==> (r matches Err(
                OverlayError::MountFailed(e),
            ) && e == err),
    {
        if ret == 0 {
            return Ok(OverlayStatus::Mounted);
        }
        if err == errno::enosys() || err == errno::enodata() || err == errno::eperm() {
            Ok(OverlayStatus::TryFuse)
        } else {
            Err(OverlayError::MountFailed(err))
        }
    }

    /// Judge a planned mount from the value mount(2) returned and the error
    /// number it left: a kernel overlayfs mount as `overlay_outcome` does;
    /// the bind mount of the lower layer counts as mounted whatever it
    /// returned.
    pub fn mount_outcome(plan: &OverlayMount, ret: i64, err: i32) -> (r: Result<OverlayStatus, OverlayError>)
        ensures
            plan is BindLower ==> r == Ok::<OverlayStatus, OverlayError>(OverlayStatus::Mounted),
            plan is Overlay && ret == 0 ==> r == Ok::<OverlayStatus, OverlayError>(OverlayStatus::Mounted),
            plan is Overlay && ret != 0 && (err == 38 || err == 61 || err == 1) ==> r == Ok::<
                OverlayStatus,
                OverlayError,
            >(OverlayStatus::TryFuse),
            plan is Overlay && ret != 0 && !(err == 38 || err == 61 || err == 1) ==> (r matches Err(
                OverlayError::MountFailed(e),
            ) && e == err),
    {
        match plan {
            OverlayMount::Overlay(_) => Self::overlay_outcome(ret, err),
            OverlayMount::BindLower(_) => Ok(OverlayStatus::Mounted),
        }
    }

    /// Judge the FUSE fallback: the overlay is mounted when the
    /// fuse-overlayfs program was found and exited successfully; otherwise
    /// no overlay filesystem is available.
    pub fn fuse_outcome(found: bool, exited_ok: bool) -> (r: Result<(), OverlayError>)
        ensures
            found && exited_ok ==> r is Ok,
            !(found && exited_ok) ==> r matches Err(OverlayError::NoOverlay),
    {
        if found && exited_ok {
            Ok(())
        } else {
            Err(OverlayError::NoOverlay)
        }
    }

    /// The arguments of the fuse-overlayfs program: the layer options, then
    /// the merged directory.
    pub fn fuse_overlayfs_args(&self, upper: &str, work: &str) -> (r: Vec<String>)
        ensures
            text::views(r@) == seq!["-o"@, overlay_options(self.lower@, upper@, work@), self.merged@],
    {
        let mut options = text::concat3("lowerdir=", self.lower.as_str(), ",upperdir=");
        options.append(upper);
        options.append(",workdir=");
        options.append(work);
        let mut v: Vec<String> = Vec::new();
        v.push(text::owned("-o"));
        v.push(options);
        v.push(self.merged.clone());
        assert(text::views(v@) =~= seq!["-o"@, overlay_options(self.lower@, upper@, work@), self.merged@]);
        v
    }

    /// The merged view path.
    pub fn merged_path(&self) -> (r: &str)
        ensures
            r@ == self.merged@,
    {
        self.merged.as_str()
    }
}

} // verus!
