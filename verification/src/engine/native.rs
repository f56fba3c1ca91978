//! The native engine: the fast path through LD_PRELOAD and seccomp user
//! notification, needing no root.
use vstd::prelude::*;
use crate::engine::{Engine, environment, EnvPairs};
use crate::errno;
use crate::text;
use crate::Config;

verus! {

/// The native engine.
pub struct NativeEngine;

/// The steps of a native start, in order.
#[derive(Debug, Clone, Copy, PartialEq, Eq, Structural)]
pub enum NativeStep {
    /// Mount the overlay filesystem.
    MountOverlay,
    /// Set up the mount context of the rootfs.
    SetupMounts,
    /// Attach seccomp interception to the current thread.
    AttachSeccomp,
    /// Start user-mode networking.
    StartNetwork,
    /// Run PID 1.
    ExecPid1,
}

/// The steps of a native start under `c`.
pub open spec fn native_steps(c: Config) -> Seq<NativeStep> {
    seq![NativeStep::MountOverlay, NativeStep::SetupMounts, NativeStep::AttachSeccomp] + (if c.network.enabled {
        seq![NativeStep::StartNetwork]
    } else {
        Seq::empty()
    }) + seq![NativeStep::ExecPid1]
}

impl NativeEngine {
    pub fn new() -> (r: Self) {
        Self
    }

    /// Whether seccomp user notification exists, from the value of the probe
    /// and the error number it left: anything but ENOSYS means it does (an
    /// EFAULT says the syscall exists though no filter was set).
    pub fn seccomp_notify_probe(ret: i64, err: i32) -> (r: bool)
        ensures
            r == (ret >= 0 || err != 38),
    {
        ret >= 0 || err != errno::enosys()
    }

    /// The steps that start the engine, in order: overlay, mount context,
    /// seccomp, networking when enabled, then PID 1.
    pub fn start_steps(config: &Config) -> (r: Vec<NativeStep>)
        ensures
            r@ == native_steps(*config),
    {
        let mut v: Vec<NativeStep> = Vec::new();
        v.push(NativeStep::MountOverlay);
        v.push(NativeStep::SetupMounts);
        v.push(NativeStep::AttachSeccomp);
        if config.network.enabled {
            v.push(NativeStep::StartNetwork);
        }
        v.push(NativeStep::ExecPid1);
        assert(v@ =~= native_steps(*config));
        v
    }

    /// The environment of a command run by this engine: PATH, HOME and TERM,
    /// the preload library with the rootfs and hostname it reads, then the
    /// configured variables.
    pub fn exec_environment(config: &Config) -> (r: EnvPairs)
        ensures
            crate::engine::is_environment(*config, false, r),
    {
        environment(config, false)
    }

    /// The variables the engine sets in its own process before running a
    /// command: the preload library, the rootfs and the hostname.
    pub fn preload_variables(config: &Config) -> (r: EnvPairs)
        ensures
            r@.len() == 3,
            r@[0].0@ == "LD_PRELOAD"@ && r@[0].1@ == "libastrashell-preload.so"@,
            r@[1].0@ == "ASTRASHELL_ROOT"@ && r@[1].1@ == config.runtime.rootfs@,
            r@[2].0@ == "ASTRASHELL_HOSTNAME"@ && r@[2].1@ == config.runtime.hostname@,
    {
        let mut v: EnvPairs = Vec::new();
        v.push((text::owned("LD_PRELOAD"), text::owned("libastrashell-preload.so")));
        v.push((text::owned("ASTRASHELL_ROOT"), config.runtime.rootfs.clone()));
        v.push((text::owned("ASTRASHELL_HOSTNAME"), config.runtime.hostname.clone()));
        v
    }
}

impl Engine for NativeEngine {
    fn name(&self) -> (r: &'static str)
        ensures
            r@ == "native"@,
    {
        "native"
    }

    fn priority(&self) -> (r: u32)
        ensures
            r == 10,
    {
        10
    }
}

/// A command run by the native engine always finds the preload library,
/// the rootfs and the hostname in its environment, right after PATH, HOME
/// and TERM.
pub proof fn law_native_children_preloaded(c: Config, r: EnvPairs)
    requires
        crate::engine::is_environment(c, false, r),
    ensures
        crate::engine::pair_views(r)[3] == ("LD_PRELOAD"@, "libastrashell-preload.so"@),
        crate::engine::pair_views(r)[4] == ("ASTRASHELL_ROOT"@, c.runtime.rootfs@),
        crate::engine::pair_views(r)[5] == ("ASTRASHELL_HOSTNAME"@, c.runtime.hostname@),
{
}

} // verus!
