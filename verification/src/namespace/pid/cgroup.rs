//! The cgroup namespace.
use vstd::prelude::*;

verus! {

pub struct CgroupManager;

impl CgroupManager {
    pub fn new() -> (r: Self) {
        Self
    }
}

} // verus!
