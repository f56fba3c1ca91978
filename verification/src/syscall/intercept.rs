//! Syscall interception through seccomp user notification.
//!
//! The platform layer attaches the filter and runs the notification loop;
//! this module holds the interceptor's state and decides, for each trapped
//! syscall, the response that the loop sends back.
use vstd::prelude::*;
use crate::errno;
use crate::syscall::arm64;

verus! {

/// `libc::sock_fprog`, the BPF program descriptor handed to seccomp.
#[verifier::external_type_specification]
#[verifier::external_body]
pub struct ExSockFprog(libc::sock_fprog);

/// Tells the kernel to let the trapped syscall run as it is.
pub const SECCOMP_USER_NOTIF_FLAG_CONTINUE: u32 = 1;
pub const SECCOMP_FILTER_FLAG_NEW_LISTENER: u32 = 8;
pub const SECCOMP_RET_USER_NOTIF: u32 = 0x7fc00000;
pub const SECCOMP_IOCTL_NOTIF_RECV: u64 = 0xc0504100;
pub const SECCOMP_IOCTL_NOTIF_SEND: u64 = 0xc0184101;

/// The interceptor: the notification descriptor once seccomp is attached,
/// and whether the ptrace fallback is in use.
pub struct SyscallIntercept {
    pub notify_fd: Option<i32>,
    pub use_ptrace: bool,
}

/// Why attaching failed.
#[derive(Debug, PartialEq, Eq, Structural)]
pub enum InterceptError {
    /// No filter program was given.
    NoFilter,
    /// seccomp refused the filter with this error number.
    AttachFailed(i32),
}

/// The response sent back for one notification.
#[derive(Debug, PartialEq, Eq, Structural)]
pub struct NotifResponse {
    pub id: u64,
    pub val: i64,
    pub error: i32,
    pub flags: u32,
}

/// What the notification loop does after a failed receive.
#[derive(Debug, PartialEq, Eq, Structural)]
pub enum LoopControl {
    Retry,
    Stop,
}

/// The syscalls that the runtime answers itself, with success, without
/// running them: mount and umount2 (mounts are brokered), capget and capset
/// (the emulated root holds every capability), sethostname.
pub open spec fn emulated_syscall(nr: i64) -> bool {
    ||| nr == arm64::MOUNT
    ||| nr == arm64::UMOUNT2
    ||| nr == arm64::CAPGET
    ||| nr == arm64::CAPSET
    ||| nr == arm64::SETHOSTNAME
}

/// The response to syscall `nr` in notification `id`: the emulated syscalls
/// succeed without running, reboot is refused with EPERM, and every other
/// syscall continues unchanged, with value and error 0 as the kernel
/// requires of a continued syscall.
pub open spec fn notification_answer(id: u64, nr: i64) -> NotifResponse {
    if emulated_syscall(nr) {
        NotifResponse { id, val: 0, error: 0, flags: 0 }
    } else if nr == arm64::REBOOT {
        NotifResponse { id, val: -1i64, error: -1i32, flags: 0 }
    } else {
        NotifResponse { id, val: 0, error: 0, flags: SECCOMP_USER_NOTIF_FLAG_CONTINUE }
    }
}

/// The response for syscall `nr` in notification `id`.
pub fn answer_notification(id: u64, nr: i32) -> (r: NotifResponse)
    ensures
        r == notification_answer(id, nr as i64),
{
    let nr = nr as i64;
    if nr == arm64::MOUNT || nr == arm64::UMOUNT2 {
        NotifResponse { id, val: 0, error: 0, flags: 0 }
    } else if nr == arm64::CAPGET || nr == arm64::CAPSET {
        NotifResponse { id, val: 0, error: 0, flags: 0 }
    } else if nr == arm64::SETHOSTNAME {
        NotifResponse { id, val: 0, error: 0, flags: 0 }
    } else if nr == arm64::REBOOT {
        NotifResponse { id, val: -1, error: -errno::eperm(), flags: 0 }
    } else {
        NotifResponse { id, val: 0, error: 0, flags: SECCOMP_USER_NOTIF_FLAG_CONTINUE }
    }
}

/// After a failed receive with error number `err`: retry on EINTR and
/// EAGAIN, stop otherwise.
pub fn recv_failure_action(err: i32) -> (r: LoopControl)
    ensures
        r == (if err == 4 || err == 11 { LoopControl::Retry } else { LoopControl::Stop }),
{
    if err == errno::eintr() || err == errno::eagain() {
        LoopControl::Retry
    } else {
        LoopControl::Stop
    }
}

impl SyscallIntercept {
    pub fn new() -> (r: Self)
        ensures
            r.notify_fd is None,
            !r.use_ptrace,
    {
        Self { notify_fd: None, use_ptrace: false }
    }

    /// Check the filter programs before attaching: only the first is
    /// attached, and there must be one.
    pub fn check_filters(filter: &Vec<libc::sock_fprog>) -> (r: Result<(), InterceptError>)
        ensures
            r == (if filter@.len() == 0 { Err(InterceptError::NoFilter) } else { Ok(()) }),
    {
        if filter.len() == 0 {
            Err(InterceptError::NoFilter)
        } else {
            Ok(())
        }
    }

    /// Record the outcome of attaching the filter, from the value seccomp
    /// returned and the error number it left. A descriptor becomes the
    /// notification descriptor, and is returned for the loop to run on; an
    /// absent seccomp (ENOSYS) leaves the LD_PRELOAD path, with no
    /// descriptor; any other failure is an error.
    pub fn complete_attach(&mut self, ret: i64, err: i32) -> (r: Result<Option<i32>, InterceptError>)
        ensures
            ret >= 0 ==> r == Ok::<Option<i32>, InterceptError>(Some(ret as i32))
                && final(self).notify_fd == Some(ret as i32) && final(self).use_ptrace == old(self).use_ptrace,
            ret < 0 && err == 38 ==> r == Ok::<Option<i32>, InterceptError>(None)
                && final(self).notify_fd == old(self).notify_fd && !final(self).use_ptrace,
            ret < 0 && err != 38 ==> r == Err::<Option<i32>, InterceptError>(InterceptError::AttachFailed(err))
                && *final(self) == *old(self),
    {
        if ret < 0 {
            if err == errno::enosys() {
                self.use_ptrace = false;
                return Ok(None);
            }
            return Err(InterceptError::AttachFailed(err));
        }
        let fd = ret as i32;
        self.notify_fd = Some(fd);
        Ok(Some(fd))
    }

    /// Whether the ptrace fallback is active.
    pub fn is_ptrace_fallback(&self) -> (r: bool)
        ensures
            r == self.use_ptrace,
    {
        self.use_ptrace
    }
}

/// Build the seccomp filter that traps the given syscalls. No program is
/// built yet: the result is always an empty list, so every syscall is
/// permitted.
pub fn build_intercept_filter(trapped_syscalls: &[i64]) -> (r: Result<Vec<libc::sock_fprog>, InterceptError>)
    ensures
        r matches Ok(v) && v@.len() == 0,
{
    Ok(Vec::new())
}

/// A trapped mount, umount2, capget, capset or sethostname is answered with
/// success without running; reboot is refused with EPERM; every other
/// syscall is let through unchanged, with value and error 0.
pub proof fn law_emulated_syscalls_succeed(id: u64, nr: i64)
    ensures
        emulated_syscall(nr) ==> notification_answer(id, nr) == (NotifResponse {
            id,
            val: 0,
            error: 0,
            flags: 0,
        }),
        nr == arm64::REBOOT ==> notification_answer(id, nr).error == -1
            && notification_answer(id, nr).val == -1,
        !emulated_syscall(nr) && nr != arm64::REBOOT ==> notification_answer(id, nr) == (
        NotifResponse { id, val: 0, error: 0, flags: SECCOMP_USER_NOTIF_FLAG_CONTINUE }),
        notification_answer(id, nr).id == id,
{
}

} // verus!
