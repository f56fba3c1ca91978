//! Remote calls over vsock to the microVM.
use vstd::prelude::*;

verus! {

/// A session with the VM at `cid`, on `port`.
pub struct RpcSession {
    pub cid: u32,
    pub port: u32,
}

/// Why a remote call failed.
#[derive(Debug, Clone, Copy, PartialEq, Eq, Structural)]
pub enum RpcError {
    Disconnected,
}

impl RpcSession {
    pub fn new(cid: u32, port: u32) -> (r: Self)
        ensures
            r.cid == cid,
            r.port == port,
    {
        Self { cid, port }
    }

    /// Connect to the VM. No connection is made yet; the call always
    /// succeeds.
    pub fn connect(&self) -> (r: Result<(), RpcError>)
        ensures
            r is Ok,
    {
        Ok(())
    }

    /// Call `method` with `args`. No call is made yet; the answer is always
    /// empty.
    pub fn call(&self, method: &str, args: &[u8]) -> (r: Result<Vec<u8>, RpcError>)
        ensures
            r matches Ok(v) && v@.len() == 0,
    {
        Ok(Vec::new())
    }
}

} // verus!
