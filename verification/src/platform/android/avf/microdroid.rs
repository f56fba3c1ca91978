//! Microdroid payloads.
use vstd::prelude::*;
use crate::engine::vm::avf::AvfError;

verus! {

/// A Microdroid payload.
pub struct MicrodroidConfig {
    pub apk_path: String,
    pub payload_lib: String,
    pub payload_class: String,
    pub apexes: Vec<String>,
}

/// Run a Microdroid payload. No VM is created yet; the call always
/// succeeds.
pub fn run_payload(config: MicrodroidConfig) -> (r: Result<(), AvfError>)
    ensures
        r is Ok,
{
    Ok(())
}

} // verus!
