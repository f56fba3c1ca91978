//! The error numbers of the C library that the runtime's decisions test.
//!
//! The values stated are those of Linux and Android on the x86_64, AArch64
//! and ARM targets that the runtime builds for; some other architectures
//! (MIPS, SPARC) number ENOSYS and ENODATA differently.
use vstd::prelude::*;

verus! {

/// `libc::EPERM`, "operation not permitted"; the C library defines it as 1 on Linux.
#[verifier::external_body]
pub fn eperm() -> (r: i32)
    ensures
        r == 1,
{
    libc::EPERM
}

/// `libc::EINTR`, "interrupted system call"; the C library defines it as 4 on Linux.
#[verifier::external_body]
pub fn eintr() -> (r: i32)
    ensures
        r == 4,
{
    libc::EINTR
}

/// `libc::EAGAIN`, "try again"; the C library defines it as 11 on Linux.
#[verifier::external_body]
pub fn eagain() -> (r: i32)
    ensures
        r == 11,
{
    libc::EAGAIN
}

/// `libc::EINVAL`, "invalid argument"; the C library defines it as 22 on Linux.
#[verifier::external_body]
pub fn einval() -> (r: i32)
    ensures
        r == 22,
{
    libc::EINVAL
}

/// `libc::ENOSYS`, "function not implemented"; the C library defines it as
/// 38 on Linux for the x86_64, AArch64 and ARM targets that the runtime
/// builds for (MIPS and SPARC Linux use other numbers).
#[verifier::external_body]
pub fn enosys() -> (r: i32)
    ensures
        r == 38,
{
    libc::ENOSYS
}

/// `libc::ENODATA`, "no data available"; the C library defines it as 61
/// on Linux for the x86_64, AArch64 and ARM targets that the runtime builds
/// for.
#[verifier::external_body]
pub fn enodata() -> (r: i32)
    ensures
        r == 61,
{
    libc::ENODATA
}

} // verus!
