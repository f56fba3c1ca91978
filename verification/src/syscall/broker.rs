//! The syscall broker: the privileged helper that performs operations on
//! behalf of the sandboxed process. Its policy (which requests are served,
//! which refused, and how an outcome is answered) is decided here; the
//! platform layer carries out the operations that the policy lets through.
use vstd::prelude::*;
use crate::errno;
use crate::text;

verus! {

/// A request from the sandboxed process.
#[allow(inconsistent_fields)]
#[derive(Debug)]
pub enum BrokerRequest {
    Mount { source: String, target: String, fstype: String, flags: u64 },
    Umount { target: String, flags: i32 },
    PivotRoot { new_root: String, put_old: String },
    SetHostname { name: String },
    CreateNamespace { flags: i32 },
    Setns { fd: i64, nstype: i32 },
    CapSet { pid: i32, caps: Vec<u32> },
    Chown { path: String, uid: u32, gid: u32 },
    Mknod { path: String, mode: u32, dev: u64 },
}

/// The broker's answer.
#[derive(Debug)]
pub enum BrokerResponse {
    Success,
    Error { code: i32, message: String },
    Data { value: i64 },
}

/// A privileged operation that the broker has decided to perform.
#[allow(inconsistent_fields)]
#[derive(Debug)]
pub enum PrivilegedOp {
    Mount { source: String, target: String, fstype: String, flags: u64 },
    Umount { target: String, flags: i32 },
    PivotRoot { new_root: String, put_old: String },
}

/// What the broker does with a request: answer it at once, or perform an
/// operation and answer with its outcome.
#[derive(Debug)]
pub enum BrokerAction {
    Reply(BrokerResponse),
    Perform(PrivilegedOp),
}

/// The broker, listening on a Unix socket.
pub struct SyscallBroker {
    pub socket_path: String,
}

/// The filesystem types that may be mounted anywhere.
pub open spec fn allowed_fs_type(fstype: Seq<char>) -> bool {
    ||| fstype == "proc"@
    ||| fstype == "sysfs"@
    ||| fstype == "tmpfs"@
    ||| fstype == "devpts"@
    ||| fstype == "devtmpfs"@
    ||| fstype == "cgroup"@
    ||| fstype == "cgroup2"@
}

/// The targets under which bind mounts are accepted too.
pub open spec fn pseudo_fs_target(target: Seq<char>) -> bool {
    ||| text::has_prefix(target, "/proc"@)
    ||| text::has_prefix(target, "/sys"@)
    ||| text::has_prefix(target, "/dev"@)
}

/// `target` is the directory `dir` or lies below it.
pub open spec fn under(target: Seq<char>, dir: Seq<char>) -> bool {
    target == dir || text::has_prefix(target, dir + "/"@)
}

/// The mount targets the broker serves: /proc, /sys, /dev, /dev/pts,
/// /sys/fs/cgroup, /tmp and /run, and what lies below them.
pub open spec fn allowed_target(target: Seq<char>) -> bool {
    ||| under(target, "/proc"@)
    ||| under(target, "/sys"@)
    ||| under(target, "/dev"@)
    ||| under(target, "/dev/pts"@)
    ||| under(target, "/sys/fs/cgroup"@)
    ||| under(target, "/tmp"@)
    ||| under(target, "/run"@)
}

/// The mount allowlist: the target must be an allowed one, and the type
/// must be allowed there.
pub open spec fn mount_allowed(target: Seq<char>, fstype: Seq<char>) -> bool {
    allowed_target(target) && fs_type_allowed_at(target, fstype)
}

/// The filesystem types accepted at `target`: bind mounts and "none" too
/// under /proc, /sys and /dev, only the allowed types elsewhere.
pub open spec fn fs_type_allowed_at(target: Seq<char>, fstype: Seq<char>) -> bool {
    if pseudo_fs_target(target) {
        fstype == "bind"@ || fstype == "none"@ || allowed_fs_type(fstype)
    } else {
        allowed_fs_type(fstype)
    }
}

/// What the broker does with `req`.
pub open spec fn planned(req: BrokerRequest, action: BrokerAction) -> bool {
    match req {
        BrokerRequest::Mount { source, target, fstype, flags } => if mount_allowed(target@, fstype@) {
            action matches BrokerAction::Perform(PrivilegedOp::Mount { source: s, target: t, fstype: f, flags: g })
                && s@ == source@ && t@ == target@ && f@ == fstype@ && g == flags
        } else {
            action matches BrokerAction::Reply(BrokerResponse::Error { code, message })
                && code == -1 && message@ == "Mount not allowed"@
        },
        BrokerRequest::Umount { target, flags } => action matches BrokerAction::Perform(
            PrivilegedOp::Umount { target: t, flags: g },
        ) && t@ == target@ && g == flags,
        BrokerRequest::PivotRoot { new_root, put_old } => action matches BrokerAction::Perform(
            PrivilegedOp::PivotRoot { new_root: n, put_old: p },
        ) && n@ == new_root@ && p@ == put_old@,
        _ => action matches BrokerAction::Reply(BrokerResponse::Error { code, message }) && code
            == -38 && message@ == "Unsupported operation"@,
    }
}

/// The failure message for an operation.
pub open spec fn failure_message(op: PrivilegedOp) -> Seq<char> {
    match op {
        PrivilegedOp::Mount { .. } => "Mount failed"@,
        PrivilegedOp::Umount { .. } => "Umount failed"@,
        PrivilegedOp::PivotRoot { .. } => "pivot_root failed"@,
    }
}

/// Whether `fstype` is one of the filesystem types mountable anywhere.
fn is_allowed_fs_type(fstype: &str) -> (r: bool)
    ensures
        r == allowed_fs_type(fstype@),
{
    text::str_eq(fstype, "proc") || text::str_eq(fstype, "sysfs") || text::str_eq(fstype, "tmpfs")
        || text::str_eq(fstype, "devpts") || text::str_eq(fstype, "devtmpfs") || text::str_eq(
        fstype,
        "cgroup",
    ) || text::str_eq(fstype, "cgroup2")
}

/// Whether `target` is `dir` or lies below it.
fn is_under(target: &str, dir: &str) -> (r: bool)
    ensures
        r == under(target@, dir@),
{
    if text::str_eq(target, dir) {
        return true;
    }
    let prefix = text::concat(dir, "/");
    text::starts_with(target, prefix.as_str())
}

/// Whether `target` is one of the served mount targets or lies below one.
fn is_allowed_target(target: &str) -> (r: bool)
    ensures
        r == allowed_target(target@),
{
    is_under(target, "/proc") || is_under(target, "/sys") || is_under(target, "/dev") || is_under(
        target,
        "/dev/pts",
    ) || is_under(target, "/sys/fs/cgroup") || is_under(target, "/tmp") || is_under(target, "/run")
}

/// Check a mount operation against the allowlist. The target must be one of
/// /proc, /sys, /dev, /dev/pts, /sys/fs/cgroup, /tmp and /run or lie below
/// one; under /proc, /sys and /dev bind mounts and "none" are accepted
/// besides the allowed filesystem types, elsewhere only the allowed types
/// are. The source is not consulted.
pub fn is_mount_allowed(source: &str, target: &str, fstype: &str) -> (r: bool)
    ensures
        r == mount_allowed(target@, fstype@),
{
    if !is_allowed_target(target) {
        return false;
    }
    if text::starts_with(target, "/proc") || text::starts_with(target, "/sys") || text::starts_with(
        target,
        "/dev",
    ) {
        return text::str_eq(fstype, "bind") || text::str_eq(fstype, "none") || is_allowed_fs_type(
            fstype,
        );
    }
    is_allowed_fs_type(fstype)
}

impl SyscallBroker {
    pub fn new(path: &str) -> (r: Self)
        ensures
            r.socket_path@ == path@,
    {
        Self { socket_path: text::owned(path) }
    }

    /// Decide what to do with a request: a mount outside the allowlist is
    /// refused with EPERM, mount, umount and pivot_root are performed as
    /// asked, and every other request is answered with ENOSYS.
    pub fn plan_request(req: &BrokerRequest) -> (r: BrokerAction)
        ensures
            planned(*req, r),
    {
        match req {
            BrokerRequest::Mount { source, target, fstype, flags } => {
                if !is_mount_allowed(source.as_str(), target.as_str(), fstype.as_str()) {
                    return BrokerAction::Reply(
                        BrokerResponse::Error { code: -errno::eperm(), message: text::owned("Mount not allowed") },
                    );
                }
                BrokerAction::Perform(
                    PrivilegedOp::Mount {
                        source: source.clone(),
                        target: target.clone(),
                        fstype: fstype.clone(),
                        flags: *flags,
                    },
                )
            },
            BrokerRequest::Umount { target, flags } => BrokerAction::Perform(
                PrivilegedOp::Umount { target: target.clone(), flags: *flags },
            ),
            BrokerRequest::PivotRoot { new_root, put_old } => BrokerAction::Perform(
                PrivilegedOp::PivotRoot { new_root: new_root.clone(), put_old: put_old.clone() },
            ),
            _ => BrokerAction::Reply(
                BrokerResponse::Error { code: -errno::enosys(), message: text::owned("Unsupported operation") },
            ),
        }
    }

    /// The answer to a performed operation, from the value the system call
    /// returned and the error number it left: success on 0, otherwise an
    /// error carrying that error number.
    pub fn respond(op: &PrivilegedOp, ret: i64, err: i32) -> (r: BrokerResponse)
        ensures
            ret == 0 ==> r is Success,
            ret != 0 ==> (r matches BrokerResponse::Error { code, message } && code == err
                && message@ == failure_message(*op)),
    {
        if ret == 0 {
            return BrokerResponse::Success;
        }
        let message = match op {
            PrivilegedOp::Mount { .. } => text::owned("Mount failed"),
            PrivilegedOp::Umount { .. } => text::owned("Umount failed"),
            PrivilegedOp::PivotRoot { .. } => text::owned("pivot_root failed"),
        };
        BrokerResponse::Error { code: err, message }
    }
}

/// Only the served targets can be mounted on: a mount anywhere else, such
/// as a tmpfs on /etc, is refused. On a served target a mount with one of
/// the allowed filesystem types passes, and a bind mount passes only under
/// /proc, /sys or /dev.
pub proof fn law_mount_allowlist(target: Seq<char>, fstype: Seq<char>)
    ensures
        !allowed_target(target) ==> !mount_allowed(target, fstype),
        allowed_fs_type(fstype) ==> (mount_allowed(target, fstype) <==> allowed_target(target)),
        fstype == "bind"@ ==> (mount_allowed(target, fstype) <==> (allowed_target(target)
            && pseudo_fs_target(target))),
{
    if fstype == "bind"@ && !pseudo_fs_target(target) {
        reveal_strlit("bind");
        reveal_strlit("proc");
        reveal_strlit("sysfs");
        reveal_strlit("tmpfs");
        reveal_strlit("devpts");
        reveal_strlit("devtmpfs");
        reveal_strlit("cgroup");
        reveal_strlit("cgroup2");
        assert(fstype[0] == 'b');
    }
}

/// The kernel filesystems the broker mounts are exactly proc, sysfs, tmpfs,
/// devpts, devtmpfs, cgroup and cgroup2: each is accepted on any served
/// target, and no other type is accepted outside /proc, /sys and /dev.
pub proof fn law_allowed_filesystem_types(target: Seq<char>, fstype: Seq<char>)
    ensures
        allowed_fs_type(fstype) <==> (fstype == "proc"@ || fstype == "sysfs"@ || fstype == "tmpfs"@
            || fstype == "devpts"@ || fstype == "devtmpfs"@ || fstype == "cgroup"@ || fstype == "cgroup2"@),
        allowed_target(target) && (fstype == "proc"@ || fstype == "sysfs"@ || fstype == "tmpfs"@
            || fstype == "devpts"@ || fstype == "devtmpfs"@ || fstype == "cgroup"@ || fstype == "cgroup2"@)
            ==> mount_allowed(target, fstype),
{
}

/// The broker accepts every pseudo-filesystem mount that the runtime plans
/// for a root at "/": proc on /proc, sysfs on /sys, tmpfs on /tmp and
/// /run, devtmpfs on /dev and devpts on /dev/pts.
pub proof fn law_pseudo_mounts_accepted(i: int)
    requires
        0 <= i < crate::namespace::mount::pseudo_mounts(Seq::empty()).len(),
    ensures
        ({
            let m = crate::namespace::mount::pseudo_mounts(Seq::empty())[i];
            m.2 matches Some(t) && mount_allowed(m.1, t)
        }),
{
    let r: Seq<char> = Seq::empty();
    let m = crate::namespace::mount::pseudo_mounts(r)[i];
    reveal_strlit("/proc");
    reveal_strlit("/sys");
    reveal_strlit("/dev");
    reveal_strlit("/dev/pts");
    reveal_strlit("/tmp");
    reveal_strlit("/run");
    assert(r + "/proc"@ =~= "/proc"@);
    assert(r + "/sys"@ =~= "/sys"@);
    assert(r + "/dev"@ =~= "/dev"@);
    assert(r + "/dev/pts"@ =~= "/dev/pts"@);
    assert(r + "/tmp"@ =~= "/tmp"@);
    assert(r + "/run"@ =~= "/run"@);
    assert(under("/proc"@, "/proc"@));
    assert(under("/sys"@, "/sys"@));
    assert(under("/dev"@, "/dev"@));
    assert(under("/dev/pts"@, "/dev/pts"@));
    assert(under("/tmp"@, "/tmp"@));
    assert(under("/run"@, "/run"@));
}

/// A mount request outside the allowlist is never performed: the broker
/// answers it with EPERM and the message "Mount not allowed".
pub proof fn law_refused_mount_answer(req: BrokerRequest, action: BrokerAction)
    requires
        req matches BrokerRequest::Mount { target, fstype, .. } && !mount_allowed(target@, fstype@),
        planned(req, action),
    ensures
        action matches BrokerAction::Reply(BrokerResponse::Error { code, message }) && code == -1
            && message@ == "Mount not allowed"@,
{
}

} // verus!
