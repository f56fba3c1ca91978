//! The user namespace, which gives fake root: UID and GID 0 inside map to
//! the unprivileged IDs outside.
use vstd::prelude::*;
use crate::namespace::{NamespaceError, UnshareOutcome};
use crate::text;

verus! {

/// The user namespace with the mappings to write; without one, 0 maps to
/// the caller's ID.
pub struct UserNamespace {
    pub uid_map: Option<String>,
    pub gid_map: Option<String>,
}

/// The default mapping line for ID `id`: "0 <id> 1".
pub open spec fn default_map(id: u32) -> Seq<char> {
    "0 "@ + text::decimal(id as nat) + " 1"@
}

/// The mapping written for `configured` and the caller's ID `id`.
pub open spec fn map_line(configured: Option<String>, id: u32) -> Seq<char> {
    match configured {
        Some(m) => m@,
        None => default_map(id),
    }
}

fn optional_owned(s: Option<&str>) -> (r: Option<String>)
    ensures
        match s {
            Some(x) => r matches Some(y) && y@ == x@,
            None => r is None,
        },
{
    match s {
        Some(x) => Some(text::owned(x)),
        None => None,
    }
}

fn mapping(configured: &Option<String>, id: u32) -> (r: String)
    ensures
        r@ == map_line(*configured, id),
{
    match configured {
        Some(m) => m.clone(),
        None => {
            let mut s = text::owned("0 ");
            text::append_decimal(&mut s, id as u64);
            s.append(" 1");
            s
        },
    }
}

/// The views of a list of file writes: path, then content.
pub open spec fn write_views(v: Seq<(String, String)>) -> Seq<(Seq<char>, Seq<char>)> {
    v.map_values(|w: (String, String)| (w.0@, w.1@))
}

/// The writes that follow entering a user namespace, in order: the UID
/// mapping, "deny" to setgroups, the GID mapping.
pub open spec fn map_writes_of(ns: UserNamespace, uid: u32, gid: u32) -> Seq<(Seq<char>, Seq<char>)> {
    seq![
        ("/proc/self/uid_map"@, map_line(ns.uid_map, uid)),
        ("/proc/self/setgroups"@, "deny"@),
        ("/proc/self/gid_map"@, map_line(ns.gid_map, gid)),
    ]
}

/// What follows write `step` of the mapping writes, given the error number
/// of a failed write: `None` goes on with the next write; `Some` ends the
/// setup with that result.
pub open spec fn after_write(step: int, err: Option<i32>) -> Option<Result<(), NamespaceError>> {
    if step == 1 {
        None
    } else {
        match err {
            Some(e) => Some(Err(NamespaceError::MapWriteFailed(e))),
            None => if step == 2 { Some(Ok(())) } else { None },
        }
    }
}

impl UserNamespace {
    pub fn new(uid_map: Option<&str>, gid_map: Option<&str>) -> (r: Self)
        ensures
            match uid_map {
                Some(m) => r.uid_map matches Some(x) && x@ == m@,
                None => r.uid_map is None,
            },
            match gid_map {
                Some(m) => r.gid_map matches Some(x) && x@ == m@,
                None => r.gid_map is None,
            },
    {
        Self { uid_map: optional_owned(uid_map), gid_map: optional_owned(gid_map) }
    }

    /// What is written to /proc/self/uid_map for the caller's UID.
    pub fn uid_map_line(&self, uid: u32) -> (r: String)
        ensures
            r@ == map_line(self.uid_map, uid),
    {
        mapping(&self.uid_map, uid)
    }

    /// What is written to /proc/self/gid_map for the caller's GID.
    pub fn gid_map_line(&self, gid: u32) -> (r: String)
        ensures
            r@ == map_line(self.gid_map, gid),
    {
        mapping(&self.gid_map, gid)
    }

    /// What follows `unshare(CLONE_NEWUSER)` with outcome `outcome`, for the
    /// caller's IDs `uid` and `gid`: nothing to write when user namespaces
    /// are unsupported, the error when `unshare` failed otherwise, and the
    /// three writes in order when the namespace was created.
    pub fn map_writes(&self, outcome: UnshareOutcome, uid: u32, gid: u32) -> (r: Result<Vec<(String, String)>, NamespaceError>)
        ensures
            match outcome {
                UnshareOutcome::Unsupported => r matches Ok(v) && v@.len() == 0,
                UnshareOutcome::Failed(e) => r matches Err(e2) && e2 == NamespaceError::UnshareFailed(e),
                UnshareOutcome::Created => r matches Ok(v) && write_views(v@) == map_writes_of(*self, uid, gid),
            },
    {
        match outcome {
            UnshareOutcome::Unsupported => Ok(Vec::new()),
            UnshareOutcome::Failed(e) => Err(NamespaceError::UnshareFailed(e)),
            UnshareOutcome::Created => {
                let mut v: Vec<(String, String)> = Vec::new();
                v.push((text::owned("/proc/self/uid_map"), self.uid_map_line(uid)));
                v.push((text::owned("/proc/self/setgroups"), Self::setgroups_line()));
                v.push((text::owned("/proc/self/gid_map"), self.gid_map_line(gid)));
                assert(write_views(v@) =~= map_writes_of(*self, uid, gid));
                Ok(v)
            },
        }
    }

    /// Judge write `step` of the mapping writes (0: uid_map, 1: setgroups,
    /// 2: gid_map) from the error number of a failed write. A failed
    /// mapping write ends the setup with its error; the setgroups write may
    /// fail without consequence; after the GID mapping the setup succeeds.
    /// So the setup succeeds exactly when both mapping writes succeed.
    pub fn after_map_write(step: usize, err: Option<i32>) -> (r: Option<Result<(), NamespaceError>>)
        requires
            step < 3,
        ensures
            r == after_write(step as int, err),
    {
        if step == 1 {
            return None;
        }
        match err {
            Some(e) => Some(Err(NamespaceError::MapWriteFailed(e))),
            None => if step == 2 {
                Some(Ok(()))
            } else {
                None
            },
        }
    }

    /// What is written to /proc/self/setgroups before the GID mapping.
    pub fn setgroups_line() -> (r: String)
        ensures
            r@ == "deny"@,
    {
        text::owned("deny")
    }
}

/// The mapping writes, driven by `after_map_write`, succeed exactly when
/// both mapping writes succeed, whatever became of the setgroups write; a
/// failed UID mapping write stops the setup before the GID mapping.
pub proof fn law_setup_needs_both_mappings(uid_err: Option<i32>, set_err: Option<i32>, gid_err: Option<i32>)
    ensures
        uid_err matches Some(e) ==> after_write(0, uid_err) == Some(Err::<(), NamespaceError>(NamespaceError::MapWriteFailed(e))),
        uid_err is None ==> after_write(0, uid_err) is None && after_write(1, set_err) is None
            && (after_write(2, gid_err) == Some(Ok::<(), NamespaceError>(())) <==> gid_err is None),
{
}

} // verus!
