//! The microVM engine: the strongest isolation, through hardware
//! virtualization with the Android Virtualization Framework.
use vstd::prelude::*;
use crate::engine::Engine;
use crate::text;
use crate::Config;

pub mod avf;

use crate::engine::vm::avf::{AVFDiskConfig, AVFManager, AVFVMConfig};

verus! {

/// The microVM engine, with the VM manager once a VM runs.
pub struct AVFEngine {
    pub avf: Option<AVFManager>,
}

/// The VM that the engine boots for `c`: kernel, initrd and disk image
/// come from the rootfs, with 2 GiB of memory and four CPUs, a GPU when the
/// display is enabled and a network when networking is.
pub open spec fn vm_config_for(c: Config, v: AVFVMConfig) -> bool {
    &&& v.name@ == "astrashell"@
    &&& v.kernel@ == c.runtime.rootfs@ + "/boot/vmlinuz"@
    &&& v.initrd@ == c.runtime.rootfs@ + "/boot/initrd.img"@
    &&& v.disks@.len() == 1
    &&& v.disks@[0].image@ == c.runtime.rootfs@ + "/rootfs.img"@
    &&& v.disks@[0].writable
    &&& v.memory_mib == 2048
    &&& v.cpus == 4
    &&& v.gpu == c.gui.enabled
    &&& v.network == c.network.enabled
    &&& v.vsock
    &&& v.console
}

impl AVFEngine {
    pub fn new() -> (r: Self)
        ensures
            r.avf is None,
    {
        Self { avf: None }
    }

    /// The configuration of the VM that the engine boots.
    pub fn vm_config(config: &Config) -> (r: AVFVMConfig)
        ensures
            vm_config_for(*config, r),
    {
        let rootfs = config.runtime.rootfs.as_str();
        let mut disks: Vec<AVFDiskConfig> = Vec::new();
        disks.push(AVFDiskConfig { image: text::concat(rootfs, "/rootfs.img"), writable: true });
        AVFVMConfig {
            name: text::owned("astrashell"),
            kernel: text::concat(rootfs, "/boot/vmlinuz"),
            initrd: text::concat(rootfs, "/boot/initrd.img"),
            disks,
            memory_mib: 2048,
            cpus: 4,
            gpu: config.gui.enabled,
            network: config.network.enabled,
            vsock: true,
            console: true,
        }
    }

    /// Whether a command runs inside the VM, over vsock, rather than
    /// directly on the host: only while a VM is running.
    pub fn runs_in_vm(&self) -> (r: bool)
        ensures
            r == self.avf is Some,
    {
        self.avf.is_some()
    }
}

impl Engine for AVFEngine {
    fn name(&self) -> (r: &'static str)
        ensures
            r@ == "avf"@,
    {
        "avf"
    }

    fn priority(&self) -> (r: u32)
        ensures
            r == 30,
    {
        30
    }
}

} // verus!
