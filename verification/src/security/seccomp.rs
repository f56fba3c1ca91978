//! The seccomp profile and the runtime's standard BPF filter.
use vstd::prelude::*;
use crate::errno;
use crate::text;

verus! {

/// A seccomp profile, by name.
pub struct SeccompProfile {
    pub profile_name: String,
}

/// Why applying the filter failed.
#[derive(Debug, PartialEq, Eq, Structural)]
pub enum SeccompError {
    /// seccomp refused the program with this error number.
    ApplyFailed(i32),
}

/// One classic BPF instruction.
#[derive(Debug, Clone, Copy, PartialEq, Eq, Structural)]
pub struct SockFilter {
    pub code: u16,
    pub jt: u8,
    pub jf: u8,
    pub k: u32,
}

/// BPF_LD | BPF_W | BPF_ABS: load a word of the syscall data.
pub const BPF_LD_W_ABS: u16 = 0x20;
/// BPF_JMP | BPF_JEQ | BPF_K: compare with a constant.
pub const BPF_JEQ_K: u16 = 0x15;
/// BPF_RET | BPF_K: return a constant verdict.
pub const BPF_RET_K: u16 = 0x06;
/// Offset of the architecture field in the syscall data.
pub const SECCOMP_DATA_ARCH: u32 = 4;
/// AUDIT_ARCH_AARCH64.
pub const AUDIT_ARCH_AARCH64: u32 = 0xc00000b7;
/// SECCOMP_RET_KILL.
pub const SECCOMP_RET_KILL: u32 = 0;
/// SECCOMP_RET_ALLOW.
pub const SECCOMP_RET_ALLOW: u32 = 0x7fff0000;

/// The runtime's standard filter: load the architecture, compare it with
/// AArch64, kill a process of any other architecture, allow every syscall
/// of an AArch64 one. The comparison skips the KILL verdict on a match
/// (`jt` is 1) and falls through to it on a mismatch (`jf` is 0).
pub open spec fn standard_filter() -> Seq<SockFilter> {
    seq![
        SockFilter { code: BPF_LD_W_ABS, jt: 0, jf: 0, k: SECCOMP_DATA_ARCH },
        SockFilter { code: BPF_JEQ_K, jt: 1, jf: 0, k: AUDIT_ARCH_AARCH64 },
        SockFilter { code: BPF_RET_K, jt: 0, jf: 0, k: SECCOMP_RET_KILL },
        SockFilter { code: BPF_RET_K, jt: 0, jf: 0, k: SECCOMP_RET_ALLOW },
    ]
}

/// Build the standard filter program. The vector must outlive any program
/// descriptor that points into it.
pub fn build_astrashell_filter() -> (r: (Vec<SockFilter>, ()))
    ensures
        r.0@ == standard_filter(),
{
    let mut filters: Vec<SockFilter> = Vec::new();
    filters.push(SockFilter { code: BPF_LD_W_ABS, jt: 0, jf: 0, k: SECCOMP_DATA_ARCH });
    filters.push(SockFilter { code: BPF_JEQ_K, jt: 1, jf: 0, k: AUDIT_ARCH_AARCH64 });
    filters.push(SockFilter { code: BPF_RET_K, jt: 0, jf: 0, k: SECCOMP_RET_KILL });
    filters.push(SockFilter { code: BPF_RET_K, jt: 0, jf: 0, k: SECCOMP_RET_ALLOW });
    assert(filters@ =~= standard_filter());
    (filters, ())
}

impl SeccompProfile {
    pub fn new(profile: &str) -> (r: Self)
        ensures
            r.profile_name@ == profile@,
    {
        Self { profile_name: text::owned(profile) }
    }

    /// The filter programs of the profile: none yet.
    pub fn get_filter(&self) -> (r: Result<Vec<libc::sock_fprog>, SeccompError>)
        ensures
            r matches Ok(v) && v@.len() == 0,
    {
        Ok(Vec::new())
    }

    /// The outcome of installing the standard filter, from the value seccomp
    /// returned and the error number it left: where seccomp is absent
    /// (ENOSYS) the filter is skipped and that is no error.
    pub fn apply_outcome(ret: i64, err: i32) -> (r: Result<(), SeccompError>)
        ensures
            r == (if ret < 0 && err != 38 { Err(SeccompError::ApplyFailed(err)) } else { Ok(()) }),
    {
        if ret < 0 {
            if err == errno::enosys() {
                return Ok(());
            }
            return Err(SeccompError::ApplyFailed(err));
        }
        Ok(())
    }
}

/// The verdict of a classic BPF program of the kinds the runtime builds
/// (loads of the architecture word, comparisons with a constant, constant
/// returns), run from instruction `pc` with accumulator `acc` on a syscall
/// of architecture `arch`; no verdict for any other instruction, or when
/// control runs off the end.
pub open spec fn filter_verdict(prog: Seq<SockFilter>, pc: nat, acc: u32, arch: u32) -> Option<u32>
    decreases prog.len() - pc,
{
    if pc >= prog.len() {
        None
    } else {
        let ins = prog[pc as int];
        if ins.code == BPF_LD_W_ABS && ins.k == SECCOMP_DATA_ARCH {
            filter_verdict(prog, pc + 1, arch, arch)
        } else if ins.code == BPF_JEQ_K {
            let off: nat = if acc == ins.k { ins.jt as nat } else { ins.jf as nat };
            if pc + 1 + off <= prog.len() {
                filter_verdict(prog, pc + 1 + off, acc, arch)
            } else {
                None
            }
        } else if ins.code == BPF_RET_K {
            Some(ins.k)
        } else {
            None
        }
    }
}

/// Run on any syscall, the standard filter allows it when the caller's
/// architecture is AArch64 and kills the caller otherwise.
pub proof fn law_standard_filter_verdict(arch: u32)
    ensures
        filter_verdict(standard_filter(), 0, 0, arch) == Some(
            if arch == AUDIT_ARCH_AARCH64 { SECCOMP_RET_ALLOW } else { SECCOMP_RET_KILL },
        ),
{
    let p = standard_filter();
    assert(filter_verdict(p, 2, arch, arch) == Some(SECCOMP_RET_KILL));
    assert(filter_verdict(p, 3, arch, arch) == Some(SECCOMP_RET_ALLOW));
    assert(filter_verdict(p, 1, arch, arch) == Some(
        if arch == AUDIT_ARCH_AARCH64 { SECCOMP_RET_ALLOW } else { SECCOMP_RET_KILL },
    ));
}

} // verus!
