//! Capability management for emulated root.
use vstd::prelude::*;
use crate::errno;
use crate::text;

verus! {

/// The capabilities kept in the bounding set.
pub struct CapabilitySet {
    pub allowed: Vec<String>,
}

/// Why a capability operation failed.
#[derive(Debug, PartialEq, Eq, Structural)]
pub enum CapabilityError {
    Unavailable,
    /// Dropping this capability from the bounding set failed with this
    /// error number.
    DropFailed(u32, i32),
}

/// The number of capabilities that the emulated root holds: CAP_CHOWN (bit 0)
/// through CAP_AUDIT_READ (bit 37).
pub const EMULATED_CAP_COUNT: usize = 38;

/// The last capability that capabilities(7) names: CAP_CHECKPOINT_RESTORE.
/// A kernel may know fewer (its /proc/sys/kernel/cap_last_cap says).
pub const CAP_LAST_CAP: u32 = 40;

/// The name of capability `i`, as capabilities(7) writes it.
pub open spec fn cap_name(i: int) -> Seq<char> {
    if i == 0 {
        "CAP_CHOWN"@
    } else if i == 1 {
        "CAP_DAC_OVERRIDE"@
    } else if i == 2 {
        "CAP_DAC_READ_SEARCH"@
    } else if i == 3 {
        "CAP_FOWNER"@
    } else if i == 4 {
        "CAP_FSETID"@
    } else if i == 5 {
        "CAP_KILL"@
    } else if i == 6 {
        "CAP_SETGID"@
    } else if i == 7 {
        "CAP_SETUID"@
    } else if i == 8 {
        "CAP_SETPCAP"@
    } else if i == 9 {
        "CAP_LINUX_IMMUTABLE"@
    } else if i == 10 {
        "CAP_NET_BIND_SERVICE"@
    } else if i == 11 {
        "CAP_NET_BROADCAST"@
    } else if i == 12 {
        "CAP_NET_ADMIN"@
    } else if i == 13 {
        "CAP_NET_RAW"@
    } else if i == 14 {
        "CAP_IPC_LOCK"@
    } else if i == 15 {
        "CAP_IPC_OWNER"@
    } else if i == 16 {
        "CAP_SYS_MODULE"@
    } else if i == 17 {
        "CAP_SYS_RAWIO"@
    } else if i == 18 {
        "CAP_SYS_CHROOT"@
    } else if i == 19 {
        "CAP_SYS_PTRACE"@
    } else if i == 20 {
        "CAP_SYS_PACCT"@
    } else if i == 21 {
        "CAP_SYS_ADMIN"@
    } else if i == 22 {
        "CAP_SYS_BOOT"@
    } else if i == 23 {
        "CAP_SYS_NICE"@
    } else if i == 24 {
        "CAP_SYS_RESOURCE"@
    } else if i == 25 {
        "CAP_SYS_TIME"@
    } else if i == 26 {
        "CAP_SYS_TTY_CONFIG"@
    } else if i == 27 {
        "CAP_MKNOD"@
    } else if i == 28 {
        "CAP_LEASE"@
    } else if i == 29 {
        "CAP_AUDIT_WRITE"@
    } else if i == 30 {
        "CAP_AUDIT_CONTROL"@
    } else if i == 31 {
        "CAP_SETFCAP"@
    } else if i == 32 {
        "CAP_MAC_OVERRIDE"@
    } else if i == 33 {
        "CAP_MAC_ADMIN"@
    } else if i == 34 {
        "CAP_SYSLOG"@
    } else if i == 35 {
        "CAP_WAKE_ALARM"@
    } else if i == 36 {
        "CAP_BLOCK_SUSPEND"@
    } else if i == 37 {
        "CAP_AUDIT_READ"@
    } else if i == 38 {
        "CAP_PERFMON"@
    } else if i == 39 {
        "CAP_BPF"@
    } else {
        "CAP_CHECKPOINT_RESTORE"@
    }
}

/// The name of capability `i`.
pub fn capability_name(i: u32) -> (r: &'static str)
    requires
        i <= CAP_LAST_CAP,
    ensures
        r@ == cap_name(i as int),
{
    if i == 0 {
        "CAP_CHOWN"
    } else if i == 1 {
        "CAP_DAC_OVERRIDE"
    } else if i == 2 {
        "CAP_DAC_READ_SEARCH"
    } else if i == 3 {
        "CAP_FOWNER"
    } else if i == 4 {
        "CAP_FSETID"
    } else if i == 5 {
        "CAP_KILL"
    } else if i == 6 {
        "CAP_SETGID"
    } else if i == 7 {
        "CAP_SETUID"
    } else if i == 8 {
        "CAP_SETPCAP"
    } else if i == 9 {
        "CAP_LINUX_IMMUTABLE"
    } else if i == 10 {
        "CAP_NET_BIND_SERVICE"
    } else if i == 11 {
        "CAP_NET_BROADCAST"
    } else if i == 12 {
        "CAP_NET_ADMIN"
    } else if i == 13 {
        "CAP_NET_RAW"
    } else if i == 14 {
        "CAP_IPC_LOCK"
    } else if i == 15 {
        "CAP_IPC_OWNER"
    } else if i == 16 {
        "CAP_SYS_MODULE"
    } else if i == 17 {
        "CAP_SYS_RAWIO"
    } else if i == 18 {
        "CAP_SYS_CHROOT"
    } else if i == 19 {
        "CAP_SYS_PTRACE"
    } else if i == 20 {
        "CAP_SYS_PACCT"
    } else if i == 21 {
        "CAP_SYS_ADMIN"
    } else if i == 22 {
        "CAP_SYS_BOOT"
    } else if i == 23 {
        "CAP_SYS_NICE"
    } else if i == 24 {
        "CAP_SYS_RESOURCE"
    } else if i == 25 {
        "CAP_SYS_TIME"
    } else if i == 26 {
        "CAP_SYS_TTY_CONFIG"
    } else if i == 27 {
        "CAP_MKNOD"
    } else if i == 28 {
        "CAP_LEASE"
    } else if i == 29 {
        "CAP_AUDIT_WRITE"
    } else if i == 30 {
        "CAP_AUDIT_CONTROL"
    } else if i == 31 {
        "CAP_SETFCAP"
    } else if i == 32 {
        "CAP_MAC_OVERRIDE"
    } else if i == 33 {
        "CAP_MAC_ADMIN"
    } else if i == 34 {
        "CAP_SYSLOG"
    } else if i == 35 {
        "CAP_WAKE_ALARM"
    } else if i == 36 {
        "CAP_BLOCK_SUSPEND"
    } else if i == 37 {
        "CAP_AUDIT_READ"
    } else if i == 38 {
        "CAP_PERFMON"
    } else if i == 39 {
        "CAP_BPF"
    } else {
        "CAP_CHECKPOINT_RESTORE"
    }
}

/// Whether a set that names `allowed` keeps capability `i`: only a named
/// capability can be kept.
pub open spec fn kept(allowed: Seq<Seq<char>>, i: u32) -> bool {
    i <= CAP_LAST_CAP && allowed.contains(cap_name(i as int))
}

/// The capabilities up to `last`, in ascending order, that leave the
/// bounding set when only those named in `allowed` are kept.
pub open spec fn is_drop_list(allowed: Seq<Seq<char>>, last: u32, r: Seq<u32>) -> bool {
    &&& forall|k: int| 0 <= k < r.len() ==> r[k] <= last && !kept(allowed, r[k])
    &&& forall|k: int, l: int| 0 <= k < l < r.len() ==> r[k] < r[l]
    &&& forall|i: u32| i <= last && !kept(allowed, i) ==> r.contains(i)
}

/// The outcome of dropping capability `cap` from the bounding set, from
/// what prctl(PR_CAPBSET_DROP) returned and the error number it left.
pub open spec fn drop_judged(cap: u32, ret: i64, err: i32) -> Result<(), CapabilityError> {
    if ret >= 0 || err == 22 {
        Ok(())
    } else {
        Err(CapabilityError::DropFailed(cap, err))
    }
}

impl CapabilitySet {
    pub fn new(caps: &[String]) -> (r: Self)
        ensures
            r.allowed@ == caps@,
    {
        let mut allowed: Vec<String> = Vec::new();
        let mut i: usize = 0;
        while i < caps.len()
            invariant
                i <= caps@.len(),
                allowed@ == caps@.take(i as int),
            decreases caps@.len() - i,
        {
            allowed.push(caps[i].clone());
            assert(allowed@ =~= caps@.take(i + 1));
            i = i + 1;
        }
        assert(caps@.take(caps@.len() as int) =~= caps@);
        Self { allowed }
    }

    /// Whether the set keeps the capability named `name`.
    pub fn keeps(&self, name: &str) -> (r: bool)
        ensures
            r == text::views(self.allowed@).contains(name@),
    {
        let mut i: usize = 0;
        while i < self.allowed.len()
            invariant
                i <= self.allowed@.len(),
                forall|k: int| 0 <= k < i ==> self.allowed@[k]@ != name@,
            decreases self.allowed@.len() - i,
        {
            if text::str_eq(self.allowed[i].as_str(), name) {
                assert(text::views(self.allowed@)[i as int] == name@);
                return true;
            }
            i = i + 1;
        }
        assert forall|k: int| 0 <= k < text::views(self.allowed@).len() implies text::views(
            self.allowed@,
        )[k] != name@ by {
            assert(text::views(self.allowed@)[k] == self.allowed@[k]@);
        }
        false
    }

    /// The capabilities up to `last_cap` that leave the bounding set, in
    /// ascending order: each one the set does not name.
    pub fn drops_through(&self, last_cap: u32) -> (r: Vec<u32>)
        requires
            last_cap < u32::MAX,
        ensures
            is_drop_list(text::views(self.allowed@), last_cap, r@),
    {
        let mut drops: Vec<u32> = Vec::new();
        let mut i: u32 = 0;
        while i <= last_cap
            invariant
                i <= last_cap + 1,
                last_cap < u32::MAX,
                forall|k: int| 0 <= k < drops@.len() ==> drops@[k] < i && !kept(text::views(self.allowed@), drops@[k]),
                forall|k: int, l: int| 0 <= k < l < drops@.len() ==> drops@[k] < drops@[l],
                forall|j: u32| j < i && !kept(text::views(self.allowed@), j) ==> drops@.contains(j),
            decreases last_cap + 1 - i,
        {
            let keep = if i <= CAP_LAST_CAP {
                self.keeps(capability_name(i))
            } else {
                false
            };
            let ghost before = drops@;
            if !keep {
                drops.push(i);
                assert forall|j: u32| before.contains(j) implies drops@.contains(j) by {
                    let k = choose|k: int| 0 <= k < before.len() && before[k] == j;
                    assert(drops@[k] == j);
                }
                assert(drops@[drops@.len() - 1] == i);
                assert(drops@.contains(i));
            }
            assert forall|j: u32| j <= i && !kept(text::views(self.allowed@), j) implies drops@.contains(j) by {
                if j < i {
                    assert(before.contains(j));
                }
            }
            i = i + 1;
        }
        drops
    }

    /// Restrict the capability bounding set to the allowed capabilities:
    /// the capabilities to drop from it, in ascending order, each one up to
    /// CAP_CHECKPOINT_RESTORE that the set does not name. Inside a user
    /// namespace the process holds every capability there; these are the
    /// ones it gives up. A kernel that knows more capabilities is covered
    /// by `drops_through` with its last one.
    pub fn apply(&self) -> (r: Result<Vec<u32>, CapabilityError>)
        ensures
            r matches Ok(v) && is_drop_list(text::views(self.allowed@), CAP_LAST_CAP, v@),
    {
        Ok(self.drops_through(CAP_LAST_CAP))
    }

    /// Judge one drop from the bounding set: success when prctl succeeded,
    /// or failed with EINVAL because the kernel does not know the
    /// capability; any other failure is an error for that capability.
    pub fn drop_result(cap: u32, ret: i64, err: i32) -> (r: Result<(), CapabilityError>)
        ensures
            r == drop_judged(cap, ret, err),
    {
        if ret >= 0 || err == errno::einval() {
            Ok(())
        } else {
            Err(CapabilityError::DropFailed(cap, err))
        }
    }

    /// Drop every capability: the whole bounding set, capabilities 0 through
    /// CAP_CHECKPOINT_RESTORE, in ascending order.
    pub fn drop_all() -> (r: Result<Vec<u32>, CapabilityError>)
        ensures
            r matches Ok(v) && v@ == Seq::new((CAP_LAST_CAP + 1) as nat, |i: int| i as u32),
    {
        let mut v: Vec<u32> = Vec::new();
        let mut i: u32 = 0;
        while i <= CAP_LAST_CAP
            invariant
                i <= CAP_LAST_CAP + 1,
                v@ == Seq::new(i as nat, |k: int| k as u32),
            decreases CAP_LAST_CAP + 1 - i,
        {
            v.push(i);
            assert(v@ =~= Seq::new((i + 1) as nat, |k: int| k as u32));
            i = i + 1;
        }
        Ok(v)
    }
}

/// The capability masks that the emulated root reports: one mask per
/// capability, mask `i` holding bit `i` alone.
pub fn get_emulated_caps() -> (r: Vec<u64>)
    ensures
        r@.len() == EMULATED_CAP_COUNT,
        forall|i: int| 0 <= i < EMULATED_CAP_COUNT ==> r@[i] == (1u64 << (i as u64)),
{
    let mut caps: Vec<u64> = Vec::new();
    let mut i: u64 = 0;
    while i < 38
        invariant
            i <= 38,
            caps@.len() == i,
            forall|j: int| 0 <= j < i ==> caps@[j] == (1u64 << (j as u64)),
        decreases 38 - i,
    {
        caps.push(1u64 << i);
        i = i + 1;
    }
    caps
}

/// Once the capabilities of a drop list have left the bounding set, a
/// capability up to `last` remains in it exactly when the set names it.
pub proof fn law_bounding_set_restricted(allowed: Seq<Seq<char>>, last: u32, r: Seq<u32>, i: u32)
    requires
        is_drop_list(allowed, last, r),
        i <= last,
    ensures
        !r.contains(i) <==> kept(allowed, i),
{
    if r.contains(i) {
        let k = choose|k: int| 0 <= k < r.len() && r[k] == i;
        assert(!kept(allowed, r[k]));
    }
}

/// The emulated masks are distinct single bits, and the first is CAP_CHOWN.
pub proof fn law_emulated_caps_single_bits(i: u64, j: u64)
    requires
        i < 38,
        j < 38,
    ensures
        (1u64 << i) != 0,
        i != j ==> (1u64 << i) & (1u64 << j) == 0,
        (1u64 << 0u64) == 1,
{
    assert((1u64 << i) != 0) by (bit_vector)
        requires
            i < 38,
    ;
    assert(i != j ==> (1u64 << i) & (1u64 << j) == 0) by (bit_vector)
        requires
            i < 38,
            j < 38,
    ;
    assert((1u64 << 0u64) == 1) by (bit_vector);
}

} // verus!
