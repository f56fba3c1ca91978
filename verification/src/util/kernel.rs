//! Kernel feature detection.
//!
//! The platform layer reads the kernel's files and makes the probing
//! syscalls; what their answers mean is decided here.
use vstd::prelude::*;
use crate::errno;
use crate::text;

verus! {

/// The kernel features the runtime can use.
#[derive(Debug, Clone, Copy, PartialEq, Eq, Structural)]
pub struct KernelFeatures {
    pub has_user_namespaces: bool,
    pub has_pid_namespaces: bool,
    pub has_net_namespaces: bool,
    pub has_seccomp: bool,
    pub has_seccomp_notify: bool,
    pub has_overlayfs: bool,
    pub has_fuse: bool,
    pub has_cgroups_v2: bool,
    pub has_landlock: bool,
    pub has_bpf: bool,
    pub has_kvm: bool,
    pub has_avf: bool,
}

/// The namespace types that can be probed.
#[derive(Debug, Clone, Copy, PartialEq, Eq, Structural)]
pub enum NsKind {
    Pid,
    Net,
    Ipc,
    Uts,
    Cgroup,
}

/// Whether `c` is white space in the Unicode sense that Rust's `trim` uses.
pub open spec fn is_white_space(c: char) -> bool {
    ||| ('\u{9}' <= c <= '\u{d}')
    ||| c == ' '
    ||| c == '\u{85}'
    ||| c == '\u{a0}'
    ||| c == '\u{1680}'
    ||| ('\u{2000}' <= c <= '\u{200a}')
    ||| c == '\u{2028}'
    ||| c == '\u{2029}'
    ||| c == '\u{202f}'
    ||| c == '\u{205f}'
    ||| c == '\u{3000}'
}

/// `s` without its leading white space.
pub open spec fn trimmed_start(s: Seq<char>) -> Seq<char>
    decreases s.len(),
{
    if s.len() > 0 && is_white_space(s[0]) {
        trimmed_start(s.drop_first())
    } else {
        s
    }
}

/// `s` without its trailing white space.
pub open spec fn trimmed_end(s: Seq<char>) -> Seq<char>
    decreases s.len(),
{
    if s.len() > 0 && is_white_space(s.last()) {
        trimmed_end(s.drop_last())
    } else {
        s
    }
}

/// `s` without leading and trailing white space.
pub open spec fn trimmed(s: Seq<char>) -> Seq<char> {
    trimmed_end(trimmed_start(s))
}

fn white_space(c: char) -> (r: bool)
    ensures
        r == is_white_space(c),
{
    ('\u{9}' <= c && c <= '\u{d}') || c == ' ' || c == '\u{85}' || c == '\u{a0}' || c == '\u{1680}'
        || ('\u{2000}' <= c && c <= '\u{200a}') || c == '\u{2028}' || c == '\u{2029}' || c
        == '\u{202f}' || c == '\u{205f}' || c == '\u{3000}'
}

proof fn lemma_trim_start_skip(s: Seq<char>, k: int)
    requires
        0 <= k <= s.len(),
        forall|j: int| 0 <= j < k ==> is_white_space(#[trigger] s[j]),
    ensures
        trimmed_start(s) == trimmed_start(s.skip(k)),
    decreases k,
{
    if k > 0 {
        assert(s.drop_first().skip(k - 1) =~= s.skip(k));
        assert forall|j: int| 0 <= j < k - 1 implies is_white_space(#[trigger] s.drop_first()[j]) by {
            assert(s.drop_first()[j] == s[j + 1]);
        }
        lemma_trim_start_skip(s.drop_first(), k - 1);
    } else {
        assert(s.skip(0) =~= s);
    }
}

proof fn lemma_trim_end_take(s: Seq<char>, k: int)
    requires
        0 <= k <= s.len(),
        forall|j: int| k <= j < s.len() ==> is_white_space(#[trigger] s[j]),
    ensures
        trimmed_end(s) == trimmed_end(s.take(k)),
    decreases s.len() - k,
{
    if k < s.len() {
        assert(s.drop_last().take(k) =~= s.take(k));
        assert forall|j: int| k <= j < s.drop_last().len() implies is_white_space(#[trigger] s.drop_last()[j]) by {
            assert(s.drop_last()[j] == s[j]);
        }
        lemma_trim_end_take(s.drop_last(), k);
        assert(is_white_space(s[s.len() - 1]));
    } else {
        assert(s.take(k) =~= s);
    }
}

/// `s` without leading and trailing white space.
pub fn trim(s: &str) -> (r: String)
    ensures
        r@ == trimmed(s@),
{
    let n = s.unicode_len();
    let mut i: usize = 0;
    while i < n && white_space(s.get_char(i))
        invariant
            n == s@.len(),
            i <= n,
            forall|j: int| 0 <= j < i ==> is_white_space(#[trigger] s@[j]),
        decreases n - i,
    {
        i = i + 1;
    }
    proof {
        lemma_trim_start_skip(s@, i as int);
        if i < n {
            assert(!is_white_space(s@.skip(i as int)[0]));
        }
    }
    let ghost rest = s@.skip(i as int);
    assert(trimmed_start(s@) == rest);
    let mut j: usize = n;
    while j > i && white_space(s.get_char(j - 1))
        invariant
            n == s@.len(),
            i <= j <= n,
            rest == s@.skip(i as int),
            forall|k: int| j <= k < n ==> is_white_space(#[trigger] s@[k]),
        decreases j,
    {
        j = j - 1;
    }
    proof {
        assert forall|k: int| j - i <= k < rest.len() implies is_white_space(#[trigger] rest[k]) by {
            assert(rest[k] == s@[i + k]);
        }
        lemma_trim_end_take(rest, j - i);
        assert(rest.take(j - i) =~= s@.subrange(i as int, j as int));
        if j > i {
            assert(rest.take(j - i).last() == s@[j - 1]);
        }
    }
    text::substring(s, i, j)
}

/// Whether a kernel setting file reads `expected`, white space aside.
pub fn setting_is(content: &str, expected: &str) -> (r: bool)
    ensures
        r == (trimmed(content@) == expected@),
{
    let t = trim(content);
    text::str_eq(t.as_str(), expected)
}

/// What the kernel's settings tell about unprivileged user namespaces,
/// from /proc/sys/kernel/unprivileged_userns_clone and then
/// /proc/sys/kernel/userns_restrict, each when it could be read; no answer
/// means that an `unshare` probe must decide.
pub fn userns_from_settings(userns_clone: Option<&str>, userns_restrict: Option<&str>) -> (r: Option<bool>)
    ensures
        r == (match userns_clone {
            Some(c) => Some(trimmed(c@) == "1"@),
            None => match userns_restrict {
                Some(x) => Some(trimmed(x@) == "0"@),
                None => None,
            },
        }),
{
    match userns_clone {
        Some(c) => Some(setting_is(c, "1")),
        None => match userns_restrict {
            Some(x) => Some(setting_is(x, "0")),
            None => None,
        },
    }
}

/// Whether an `unshare` probe shows the namespace type exists: it worked,
/// or it failed for a reason other than EPERM and EINVAL.
pub fn unshare_probe(ret: i64, err: i32) -> (r: bool)
    ensures
        r == (ret == 0 || (err != 1 && err != 22)),
{
    if ret == 0 {
        return true;
    }
    err != errno::eperm() && err != errno::einval()
}

/// The namespace type that a probe name stands for.
pub fn ns_kind(name: &str) -> (r: Option<NsKind>)
    ensures
        r == (if name@ == "pid"@ {
            Some(NsKind::Pid)
        } else if name@ == "net"@ {
            Some(NsKind::Net)
        } else if name@ == "ipc"@ {
            Some(NsKind::Ipc)
        } else if name@ == "uts"@ {
            Some(NsKind::Uts)
        } else if name@ == "cgroup"@ {
            Some(NsKind::Cgroup)
        } else {
            None
        }),
{
    if text::str_eq(name, "pid") {
        Some(NsKind::Pid)
    } else if text::str_eq(name, "net") {
        Some(NsKind::Net)
    } else if text::str_eq(name, "ipc") {
        Some(NsKind::Ipc)
    } else if text::str_eq(name, "uts") {
        Some(NsKind::Uts)
    } else if text::str_eq(name, "cgroup") {
        Some(NsKind::Cgroup)
    } else {
        None
    }
}

/// Whether seccomp exists, from a probe that installs no filter: it must
/// fail, and not for lack of the syscall (ENOSYS).
pub fn seccomp_probe(ret: i64, err: i32) -> (r: bool)
    ensures
        r == (ret < 0 && err != 38),
{
    ret < 0 && err != errno::enosys()
}

/// Whether seccomp user notification exists, from a probe asking for a
/// listener: anything but EINVAL means it does.
pub fn seccomp_notify_probe(ret: i64, err: i32) -> (r: bool)
    ensures
        r == (ret >= 0 || err != 22),
{
    ret >= 0 || err != errno::einval()
}

/// Whether Landlock exists, from a probe of landlock_create_ruleset:
/// anything but ENOSYS means it does.
pub fn landlock_probe(ret: i64, err: i32) -> (r: bool)
    ensures
        r == (ret >= 0 || err != 38),
{
    ret >= 0 || err != errno::enosys()
}

/// Whether /proc/filesystems lists overlayfs.
pub fn lists_overlayfs(filesystems: &str) -> (r: bool)
    ensures
        r == text::has_substring(filesystems@, "overlay"@),
{
    text::contains_str(filesystems, "overlay")
}

} // verus!
