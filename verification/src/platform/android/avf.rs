//! The Android Virtualization Framework: support check and VM launcher.
use vstd::prelude::*;
use crate::engine::vm::avf::AvfError;

pub mod microdroid;

verus! {

/// Whether AVF is available on this device. The check through the
/// VirtualizationService is not wired up on any platform yet: the answer
/// is always no.
pub fn check_avf_support() -> (r: Result<bool, AvfError>)
    ensures
        r == Ok::<bool, AvfError>(false),
{
    Ok(false)
}

/// Launches VMs through the VirtualizationService.
pub struct AVFLauncher;

impl AVFLauncher {
    pub fn new() -> (r: Self) {
        Self
    }

    /// Launch a VM and return its vsock CID. No VM is launched yet; the CID
    /// is always 0.
    pub fn launch_vm(&self, name: &str, kernel: &str, initrd: &str, disk: &str, memory_mib: u32, cpus: u32) -> (r: Result<u32, AvfError>)
        ensures
            r == Ok::<u32, AvfError>(0),
    {
        Ok(0)
    }

    /// Stop the VM at `cid`. Nothing is stopped yet; the call always
    /// succeeds.
    pub fn stop_vm(&self, cid: u32) -> (r: Result<(), AvfError>)
        ensures
            r is Ok,
    {
        Ok(())
    }

    /// Send a command to the VM at `cid` and return its output. Nothing is
    /// sent yet; the output is always empty.
    pub fn send_command(&self, cid: u32, cmd: &str) -> (r: Result<String, AvfError>)
        ensures
            r matches Ok(out) && out@.len() == 0,
    {
        Ok(String::new())
    }
}

} // verus!
