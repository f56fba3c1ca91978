//! PID, network, UTS and IPC namespaces.
use vstd::prelude::*;
use crate::text;

pub mod cgroup;

verus! {

pub struct PidNamespace;

pub struct NetNamespace;

/// A UTS namespace with the hostname it sets.
pub struct UtsNamespace {
    pub hostname: String,
}

pub struct IpcNamespace;

impl PidNamespace {
    pub fn new() -> (r: Self) {
        Self
    }
}

impl NetNamespace {
    pub fn new() -> (r: Self) {
        Self
    }
}

impl UtsNamespace {
    pub fn new(hostname: &str) -> (r: Self)
        ensures
            r.hostname@ == hostname@,
    {
        Self { hostname: text::owned(hostname) }
    }
}

impl IpcNamespace {
    pub fn new() -> (r: Self) {
        Self
    }
}

} // verus!
