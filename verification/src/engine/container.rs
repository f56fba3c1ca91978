//! The container engine: full isolation through Linux namespaces. It needs
//! user namespace support.
use vstd::prelude::*;
use crate::container::oci::OCIRuntime;
use crate::engine::{Engine, environment, EnvPairs};
use crate::{Config, NetworkType};

verus! {

/// The container engine.
pub struct ContainerEngine {
    pub oci: OCIRuntime,
}

/// The steps of a container start, in order.
#[derive(Debug, Clone, Copy, PartialEq, Eq, Structural)]
pub enum ContainerStep {
    /// Check the overlay layers.
    PrepareOverlay,
    /// Enter a new user namespace (fake root).
    UnshareUser,
    /// Set up the mount context of the rootfs.
    SetupMounts,
    /// Enter a new PID namespace.
    UnsharePid,
    /// Enter a new UTS namespace and set the hostname.
    SetupUts,
    /// Enter a new IPC namespace.
    UnshareIpc,
    /// Enter a new network namespace.
    SetupNetwork,
    /// Mount proc, sys and dev.
    MountPseudo,
    /// Apply the seccomp profile.
    ApplySeccomp,
    /// Apply the capability set.
    ApplyCapabilities,
    /// pivot_root into the new rootfs.
    PivotRoot,
    /// Run PID 1.
    ExecPid1,
}

/// The steps of a container start under `c`.
pub open spec fn container_steps(c: Config) -> Seq<ContainerStep> {
    seq![
        ContainerStep::PrepareOverlay,
        ContainerStep::UnshareUser,
        ContainerStep::SetupMounts,
        ContainerStep::UnsharePid,
        ContainerStep::SetupUts,
    ] + (if c.filesystem.dev {
        seq![ContainerStep::UnshareIpc]
    } else {
        Seq::empty()
    }) + (if c.network.type_ != NetworkType::Host {
        seq![ContainerStep::SetupNetwork]
    } else {
        Seq::empty()
    }) + seq![
        ContainerStep::MountPseudo,
        ContainerStep::ApplySeccomp,
        ContainerStep::ApplyCapabilities,
        ContainerStep::PivotRoot,
        ContainerStep::ExecPid1,
    ]
}

impl ContainerEngine {
    pub fn new() -> (r: Self) {
        Self { oci: OCIRuntime::new() }
    }

    /// The steps that start a container, in order: the IPC namespace only
    /// when /dev is provided, the network namespace unless the host network
    /// is shared.
    pub fn start_steps(config: &Config) -> (r: Vec<ContainerStep>)
        ensures
            r@ == container_steps(*config),
    {
        let mut v: Vec<ContainerStep> = Vec::new();
        v.push(ContainerStep::PrepareOverlay);
        v.push(ContainerStep::UnshareUser);
        v.push(ContainerStep::SetupMounts);
        v.push(ContainerStep::UnsharePid);
        v.push(ContainerStep::SetupUts);
        if config.filesystem.dev {
            v.push(ContainerStep::UnshareIpc);
        }
        if config.network.type_ != NetworkType::Host {
            v.push(ContainerStep::SetupNetwork);
        }
        v.push(ContainerStep::MountPseudo);
        v.push(ContainerStep::ApplySeccomp);
        v.push(ContainerStep::ApplyCapabilities);
        v.push(ContainerStep::PivotRoot);
        v.push(ContainerStep::ExecPid1);
        assert(v@ =~= container_steps(*config));
        v
    }

    /// The environment of a command run in the container: PATH, HOME, TERM
    /// and the container marker, then the configured variables.
    pub fn exec_environment(config: &Config) -> (r: EnvPairs)
        ensures
            crate::engine::is_environment(*config, true, r),
    {
        environment(config, true)
    }
}

impl Engine for ContainerEngine {
    fn name(&self) -> (r: &'static str)
        ensures
            r@ == "container"@,
    {
        "container"
    }

    fn priority(&self) -> (r: u32)
        ensures
            r == 20,
    {
        20
    }
}

/// A container always gets user, mount, PID and UTS isolation, pivots into
/// its root and then runs PID 1 last; an IPC namespace comes exactly when
/// /dev is provided.
pub proof fn law_container_isolation(c: Config)
    ensures
        container_steps(c).contains(ContainerStep::UnshareUser),
        container_steps(c).contains(ContainerStep::UnsharePid),
        container_steps(c).contains(ContainerStep::PivotRoot),
        container_steps(c).last() == ContainerStep::ExecPid1,
        container_steps(c).contains(ContainerStep::UnshareIpc) <==> c.filesystem.dev,
        container_steps(c).contains(ContainerStep::SetupNetwork) <==> c.network.type_ != NetworkType::Host,
{
    let s = container_steps(c);
    assert(s[1] == ContainerStep::UnshareUser);
    assert(s[3] == ContainerStep::UnsharePid);
    assert(s[s.len() - 2] == ContainerStep::PivotRoot);
    if c.filesystem.dev {
        assert(s[5] == ContainerStep::UnshareIpc);
    } else {
        assert(forall|i: int| 0 <= i < s.len() ==> s[i] != ContainerStep::UnshareIpc);
    }
    if c.network.type_ != NetworkType::Host {
        let i: int = if c.filesystem.dev { 6 } else { 5 };
        assert(s[i] == ContainerStep::SetupNetwork);
    } else {
        assert(forall|i: int| 0 <= i < s.len() ==> s[i] != ContainerStep::SetupNetwork);
    }
}

} // verus!
