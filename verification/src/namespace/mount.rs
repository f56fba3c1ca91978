//! The mount namespace context: filesystem isolation of the rootfs.
//!
//! The mounts, directories and `pivot_root` that set up a root are planned
//! here; the platform layer performs them in the order given.
use vstd::prelude::*;
use crate::errno;
use crate::namespace::NamespaceError;
use crate::text;

verus! {

/// The mount context of a rootfs.
pub struct MountContext {
    pub rootfs: String,
    pub old_root: Option<String>,
}

/// A mount flag.
#[derive(Debug, Clone, Copy, PartialEq, Eq, Structural)]
pub enum MountFlag {
    Private,
    Recursive,
    Bind,
    NoSuid,
    NoDev,
    NoExec,
    RelAtime,
    NoDirAtime,
}

/// One mount to perform.
#[derive(Debug)]
pub struct MountOp {
    pub source: Option<String>,
    pub target: String,
    pub fstype: Option<String>,
    pub flags: Vec<MountFlag>,
    pub data: Option<String>,
}

/// The directories to create and the mounts to perform, in order.
#[derive(Debug)]
pub struct PseudoPlan {
    pub dirs: Vec<String>,
    pub mounts: Vec<MountOp>,
}

/// What became of `pivot_root`.
#[derive(Debug, Clone, Copy, PartialEq, Eq, Structural)]
pub enum PivotOutcome {
    /// The root was switched.
    Pivoted,
    /// `pivot_root` is absent (ENOSYS): fall back to `chroot`.
    ChrootFallback,
}

/// A flag of `umount2`.
#[derive(Debug, Clone, Copy, PartialEq, Eq, Structural)]
pub enum UnmountFlag {
    /// MNT_DETACH: detach the mount now, release it when it is no longer busy.
    Detach,
}

/// What follows a `pivot_root` that did not fail, in order: the `chroot`
/// fallback when the syscall is absent; unmounting the old root with the
/// given flags and removing its mount point, failures of both ignored;
/// changing into the new root, whose outcome `finish_pivot` judges.
#[derive(Debug)]
pub struct PivotFollowUp {
    pub chroot: Option<String>,
    pub old_root: String,
    pub unmount_flags: Vec<UnmountFlag>,
    pub remove_dir: String,
    pub chdir: String,
}

/// The view of an optional string.
pub open spec fn opt_view(o: Option<String>) -> Option<Seq<char>> {
    match o {
        Some(s) => Some(s@),
        None => None,
    }
}

/// The view of a mount: source, target, type, flags and data.
pub open spec fn mount_view(m: MountOp) -> (Option<Seq<char>>, Seq<char>, Option<Seq<char>>, Seq<MountFlag>, Option<Seq<char>>) {
    (opt_view(m.source), m.target@, opt_view(m.fstype), m.flags@, opt_view(m.data))
}

/// The views of a list of mounts.
pub open spec fn mount_views(v: Seq<MountOp>) -> Seq<(Option<Seq<char>>, Seq<char>, Option<Seq<char>>, Seq<MountFlag>, Option<Seq<char>>)> {
    v.map_values(|m: MountOp| mount_view(m))
}

/// The mounts that prepare root `r`: make it private, recursively, so that
/// nothing propagates, then bind it onto itself, recursively.
pub open spec fn setup_mounts(r: Seq<char>) -> Seq<(Option<Seq<char>>, Seq<char>, Option<Seq<char>>, Seq<MountFlag>, Option<Seq<char>>)> {
    seq![
        (None, r, None, seq![MountFlag::Private, MountFlag::Recursive], None),
        (Some(r), r, None, seq![MountFlag::Bind, MountFlag::Recursive], None),
    ]
}

/// The mount points created under root `r`.
pub open spec fn pseudo_dirs(r: Seq<char>) -> Seq<Seq<char>> {
    seq![
        r + "/proc"@,
        r + "/sys"@,
        r + "/dev"@,
        r + "/dev/pts"@,
        r + "/sys/fs/cgroup"@,
        r + "/tmp"@,
        r + "/run"@,
    ]
}

/// The pseudo-filesystems mounted under root `r`: proc and sysfs, tmpfs on
/// /tmp and /run, devtmpfs on /dev and devpts on /dev/pts.
pub open spec fn pseudo_mounts(r: Seq<char>) -> Seq<(Option<Seq<char>>, Seq<char>, Option<Seq<char>>, Seq<MountFlag>, Option<Seq<char>>)> {
    let hardened = seq![MountFlag::NoSuid, MountFlag::NoDev, MountFlag::NoExec, MountFlag::RelAtime];
    let tmp = seq![MountFlag::NoSuid, MountFlag::NoDev, MountFlag::NoDirAtime];
    seq![
        (None, r + "/proc"@, Some("proc"@), hardened, None),
        (None, r + "/sys"@, Some("sysfs"@), hardened, None),
        (None, r + "/tmp"@, Some("tmpfs"@), tmp, Some("mode=1777,size=64M"@)),
        (None, r + "/run"@, Some("tmpfs"@), tmp, Some("mode=1777,size=64M"@)),
        (None, r + "/dev"@, Some("devtmpfs"@), seq![MountFlag::NoSuid, MountFlag::NoDev, MountFlag::RelAtime], None),
        (None, r + "/dev/pts"@, Some("devpts"@), seq![MountFlag::NoSuid, MountFlag::NoExec], Some("mode=620,gid=5"@)),
    ]
}

/// How `pivot_root` is judged from the value it returned and the error
/// number it left.
pub open spec fn pivot_judged(ret: i64, err: i32) -> Result<PivotOutcome, NamespaceError> {
    if ret >= 0 {
        Ok(PivotOutcome::Pivoted)
    } else if err == 38 {
        Ok(PivotOutcome::ChrootFallback)
    } else {
        Err(NamespaceError::PivotFailed(err))
    }
}

fn flags2(a: MountFlag, b: MountFlag) -> (r: Vec<MountFlag>)
    ensures
        r@ == seq![a, b],
{
    let mut v: Vec<MountFlag> = Vec::new();
    v.push(a);
    v.push(b);
    assert(v@ =~= seq![a, b]);
    v
}

fn flags3(a: MountFlag, b: MountFlag, c: MountFlag) -> (r: Vec<MountFlag>)
    ensures
        r@ == seq![a, b, c],
{
    let mut v: Vec<MountFlag> = Vec::new();
    v.push(a);
    v.push(b);
    v.push(c);
    assert(v@ =~= seq![a, b, c]);
    v
}

fn flags4(a: MountFlag, b: MountFlag, c: MountFlag, d: MountFlag) -> (r: Vec<MountFlag>)
    ensures
        r@ == seq![a, b, c, d],
{
    let mut v: Vec<MountFlag> = Vec::new();
    v.push(a);
    v.push(b);
    v.push(c);
    v.push(d);
    assert(v@ =~= seq![a, b, c, d]);
    v
}

fn push_mount(v: &mut Vec<MountOp>, m: MountOp)
    ensures
        mount_views(final(v)@) == mount_views(old(v)@).push(mount_view(m)),
{
    v.push(m);
    assert(mount_views(final(v)@) =~= mount_views(old(v)@).push(mount_view(m)));
}

fn pseudo_mount(root: &str, dir: &str, fstype: &str, flags: Vec<MountFlag>, data: Option<&str>) -> (r: MountOp)
    ensures
        mount_view(r) == (None::<Seq<char>>, root@ + dir@, Some(fstype@), flags@, match data {
            Some(d) => Some(d@),
            None => None,
        }),
{
    MountOp {
        source: None,
        target: text::concat(root, dir),
        fstype: Some(text::owned(fstype)),
        flags,
        data: match data {
            Some(d) => Some(text::owned(d)),
            None => None,
        },
    }
}

impl MountContext {
    pub fn new(rootfs: &str) -> (r: Self)
        ensures
            r.rootfs@ == rootfs@,
            r.old_root is None,
    {
        Self { rootfs: text::owned(rootfs), old_root: None }
    }

    /// The mounts that prepare the rootfs.
    pub fn setup_plan(&self) -> (r: Vec<MountOp>)
        ensures
            mount_views(r@) == setup_mounts(self.rootfs@),
    {
        let root = self.rootfs.as_str();
        let mut v: Vec<MountOp> = Vec::new();
        push_mount(
            &mut v,
            MountOp {
                source: None,
                target: text::owned(root),
                fstype: None,
                flags: flags2(MountFlag::Private, MountFlag::Recursive),
                data: None,
            },
        );
        push_mount(
            &mut v,
            MountOp {
                source: Some(text::owned(root)),
                target: text::owned(root),
                fstype: None,
                flags: flags2(MountFlag::Bind, MountFlag::Recursive),
                data: None,
            },
        );
        assert(mount_views(v@) =~= setup_mounts(self.rootfs@));
        v
    }

    /// The mount points to create and the pseudo-filesystems to mount inside
    /// the new root.
    pub fn pseudo_plan(&self) -> (r: PseudoPlan)
        ensures
            text::views(r.dirs@) == pseudo_dirs(self.rootfs@),
            mount_views(r.mounts@) == pseudo_mounts(self.rootfs@),
    {
        let root = self.rootfs.as_str();
        let mut dirs: Vec<String> = Vec::new();
        dirs.push(text::concat(root, "/proc"));
        dirs.push(text::concat(root, "/sys"));
        dirs.push(text::concat(root, "/dev"));
        dirs.push(text::concat(root, "/dev/pts"));
        dirs.push(text::concat(root, "/sys/fs/cgroup"));
        dirs.push(text::concat(root, "/tmp"));
        dirs.push(text::concat(root, "/run"));
        assert(text::views(dirs@) =~= pseudo_dirs(self.rootfs@));
        let mut mounts: Vec<MountOp> = Vec::new();
        let hardened = flags4(MountFlag::NoSuid, MountFlag::NoDev, MountFlag::NoExec, MountFlag::RelAtime);
        let hardened2 = flags4(MountFlag::NoSuid, MountFlag::NoDev, MountFlag::NoExec, MountFlag::RelAtime);
        push_mount(&mut mounts, pseudo_mount(root, "/proc", "proc", hardened, None));
        push_mount(&mut mounts, pseudo_mount(root, "/sys", "sysfs", hardened2, None));
        let tmp1 = flags3(MountFlag::NoSuid, MountFlag::NoDev, MountFlag::NoDirAtime);
        let tmp2 = flags3(MountFlag::NoSuid, MountFlag::NoDev, MountFlag::NoDirAtime);
        push_mount(&mut mounts, pseudo_mount(root, "/tmp", "tmpfs", tmp1, Some("mode=1777,size=64M")));
        push_mount(&mut mounts, pseudo_mount(root, "/run", "tmpfs", tmp2, Some("mode=1777,size=64M")));
        let dev = flags3(MountFlag::NoSuid, MountFlag::NoDev, MountFlag::RelAtime);
        push_mount(&mut mounts, pseudo_mount(root, "/dev", "devtmpfs", dev, None));
        let pts = flags2(MountFlag::NoSuid, MountFlag::NoExec);
        push_mount(&mut mounts, pseudo_mount(root, "/dev/pts", "devpts", pts, Some("mode=620,gid=5")));
        assert(mount_views(mounts@) =~= pseudo_mounts(self.rootfs@));
        PseudoPlan { dirs, mounts }
    }

    /// The directory the old root is moved to by `pivot_root`.
    pub fn put_old_path(&self) -> (r: String)
        ensures
            r@ == self.rootfs@ + "/.old_root"@,
    {
        text::concat(self.rootfs.as_str(), "/.old_root")
    }

    /// Judge `pivot_root`: an absent syscall (ENOSYS) falls back to chroot,
    /// other failures are errors.
    pub fn pivot_outcome(ret: i64, err: i32) -> (r: Result<PivotOutcome, NamespaceError>)
        ensures
            r == pivot_judged(ret, err),
    {
        if ret < 0 {
            if err == errno::enosys() {
                return Ok(PivotOutcome::ChrootFallback);
            }
            return Err(NamespaceError::PivotFailed(err));
        }
        Ok(PivotOutcome::Pivoted)
    }

    /// What follows `pivot_root`, judged from the value it returned and the
    /// error number it left: nothing when it failed (the error is the
    /// result); otherwise a `chroot` into the rootfs when the syscall is
    /// absent, then the old root "/.old_root" is detached (MNT_DETACH) and
    /// its directory removed, then the working directory becomes "/".
    pub fn pivot_follow_up(&self, ret: i64, err: i32) -> (r: Result<PivotFollowUp, NamespaceError>)
        ensures
            match pivot_judged(ret, err) {
                Err(e) => r matches Err(e2) && e2 == e,
                Ok(o) => r matches Ok(p) && opt_view(p.chroot) == (if o is ChrootFallback {
                    Some(self.rootfs@)
                } else {
                    None::<Seq<char>>
                }) && p.old_root@ == "/.old_root"@ && p.unmount_flags@ == seq![UnmountFlag::Detach]
                    && p.remove_dir@ == "/.old_root"@ && p.chdir@ == "/"@,
            },
    {
        let outcome = Self::pivot_outcome(ret, err);
        match outcome {
            Err(e) => Err(e),
            Ok(o) => {
                let chroot = match o {
                    PivotOutcome::ChrootFallback => Some(self.rootfs.clone()),
                    PivotOutcome::Pivoted => None,
                };
                let mut unmount_flags: Vec<UnmountFlag> = Vec::new();
                unmount_flags.push(UnmountFlag::Detach);
                assert(unmount_flags@ =~= seq![UnmountFlag::Detach]);
                Ok(
                    PivotFollowUp {
                        chroot,
                        old_root: text::owned("/.old_root"),
                        unmount_flags,
                        remove_dir: text::owned("/.old_root"),
                        chdir: text::owned("/"),
                    },
                )
            },
        }
    }

    /// The outcome of mounting the pseudo-filesystems, given what each
    /// planned mount returned (its value and error number): a failed mount
    /// is not an error of the root's preparation, so the outcome is always
    /// success.
    pub fn pseudo_mounts_outcome(results: &Vec<(i64, i32)>) -> (r: Result<(), NamespaceError>)
        ensures
            r is Ok,
    {
        Ok(())
    }

    /// The end of `pivot_root`, after the old root is detached: the
    /// operation succeeds exactly when changing into the new root "/"
    /// succeeded; `chdir_err` is the error number of a failed change.
    pub fn finish_pivot(chdir_err: Option<i32>) -> (r: Result<(), NamespaceError>)
        ensures
            match chdir_err {
                None => r is Ok,
                Some(e) => r == Err::<(), NamespaceError>(NamespaceError::ChdirFailed(e)),
            },
    {
        match chdir_err {
            None => Ok(()),
            Some(e) => Err(NamespaceError::ChdirFailed(e)),
        }
    }
}

/// The kernel filesystem that belongs at a pseudo-filesystem mount point:
/// the process table at /proc, the device model at /sys, device nodes at
/// /dev, pseudo-terminals at /dev/pts, memory-backed scratch space at /tmp
/// and /run.
pub open spec fn kernel_fs_at(dir: Seq<char>) -> Option<Seq<char>> {
    if dir == "/proc"@ {
        Some("proc"@)
    } else if dir == "/sys"@ {
        Some("sysfs"@)
    } else if dir == "/dev"@ {
        Some("devtmpfs"@)
    } else if dir == "/dev/pts"@ {
        Some("devpts"@)
    } else if dir == "/tmp"@ || dir == "/run"@ {
        Some("tmpfs"@)
    } else {
        None
    }
}

proof fn lemma_append_cancel(r: Seq<char>, a: Seq<char>, b: Seq<char>)
    requires
        r + a == r + b,
    ensures
        a == b,
{
    assert((r + a).skip(r.len() as int) =~= a);
    assert((r + b).skip(r.len() as int) =~= b);
}

/// Each pseudo-filesystem is mounted with the type that belongs to its
/// mount point: whatever the root `r`, the mount on `r + dir` for a known
/// mount point `dir` has the type `kernel_fs_at(dir)`, and every planned
/// mount is on such a mount point.
pub proof fn law_pseudo_mount_types(r: Seq<char>, i: int, dir: Seq<char>)
    requires
        0 <= i < pseudo_mounts(r).len(),
    ensures
        pseudo_mounts(r)[i].1 == r + dir && kernel_fs_at(dir) is Some ==> pseudo_mounts(r)[i].2 == kernel_fs_at(dir),
        exists|d: Seq<char>| pseudo_mounts(r)[i].1 == r + d && #[trigger] kernel_fs_at(d) is Some,
{
    let m = pseudo_mounts(r);
    reveal_strlit("/proc");
    reveal_strlit("/sys");
    reveal_strlit("/dev");
    reveal_strlit("/dev/pts");
    reveal_strlit("/tmp");
    reveal_strlit("/run");
    assert("/sys"@[1] != "/dev"@[1] && "/sys"@[1] != "/tmp"@[1] && "/sys"@[1] != "/run"@[1]);
    assert("/dev"@[1] != "/tmp"@[1] && "/dev"@[1] != "/run"@[1] && "/tmp"@[1] != "/run"@[1]);
    assert("/sys"@ != "/dev"@ && "/sys"@ != "/tmp"@ && "/sys"@ != "/run"@);
    assert("/dev"@ != "/tmp"@ && "/dev"@ != "/run"@);
    let d = if i == 0 {
        "/proc"@
    } else if i == 1 {
        "/sys"@
    } else if i == 2 {
        "/tmp"@
    } else if i == 3 {
        "/run"@
    } else if i == 4 {
        "/dev"@
    } else {
        "/dev/pts"@
    };
    assert(m[i].1 == r + d);
    assert(kernel_fs_at(d) is Some);
    assert(m[i].2 == kernel_fs_at(d));
    if m[i].1 == r + dir {
        lemma_append_cancel(r, d, dir);
        assert(d == dir);
    }
}

/// Every pseudo-filesystem is mounted nosuid, and on a mount point that the
/// plan creates first.
pub proof fn law_pseudo_mounts_hardened(r: Seq<char>, i: int)
    requires
        0 <= i < pseudo_mounts(r).len(),
    ensures
        pseudo_mounts(r)[i].3.contains(MountFlag::NoSuid),
        pseudo_dirs(r).contains(pseudo_mounts(r)[i].1),
{
    let m = pseudo_mounts(r);
    let d = pseudo_dirs(r);
    assert(m[i].3[0] == MountFlag::NoSuid);
    if i == 0 { assert(d[0] == m[i].1); }
    else if i == 1 { assert(d[1] == m[i].1); }
    else if i == 2 { assert(d[5] == m[i].1); }
    else if i == 3 { assert(d[6] == m[i].1); }
    else if i == 4 { assert(d[2] == m[i].1); }
    else { assert(d[3] == m[i].1); }
}

} // verus!
