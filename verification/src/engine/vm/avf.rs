//! The VM manager and the configuration of a VM.
use vstd::prelude::*;

verus! {

#[derive(Debug, Clone)]
pub struct AVFVMConfig {
    pub name: String,
    pub kernel: String,
    pub initrd: String,
    pub disks: Vec<AVFDiskConfig>,
    pub memory_mib: u32,
    pub cpus: u32,
    pub gpu: bool,
    pub network: bool,
    pub vsock: bool,
    pub console: bool,
}

#[derive(Debug, Clone)]
pub struct AVFDiskConfig {
    pub image: String,
    pub writable: bool,
}

/// Why a VM operation failed.
#[derive(Debug, PartialEq, Eq, Structural)]
pub enum AvfError {
    Unavailable,
}

/// The manager of the VirtualizationService connection.
pub struct AVFManager;

impl AVFManager {
    pub fn new() -> (r: Self) {
        Self
    }

    /// Connect to the VirtualizationService. No connection is made yet; the
    /// call always succeeds.
    pub fn initialize(&mut self) -> (r: Result<(), AvfError>)
        ensures
            r is Ok,
    {
        Ok(())
    }

    /// Start a VM. No VM is started yet; the call always succeeds.
    pub fn start_vm(&self, config: AVFVMConfig) -> (r: Result<(), AvfError>)
        ensures
            r is Ok,
    {
        Ok(())
    }

    /// Run a command inside the VM over vsock. No command is sent yet; the
    /// exit code is always 0.
    pub fn exec_vsock(&self, cmd: &[String]) -> (r: Result<i32, AvfError>)
        ensures
            r == Ok::<i32, AvfError>(0),
    {
        Ok(0)
    }
}

} // verus!
