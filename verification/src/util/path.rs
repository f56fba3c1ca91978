//! Path and binary utilities.
use vstd::prelude::*;
use crate::text;

verus! {

/// The path that `std::path::PathBuf::join` builds from `base` and `rest`.
pub uninterp spec fn path_joined(base: Seq<char>, rest: Seq<char>) -> Seq<char>;

/// `std::path::PathBuf::join` of `base` and `rest`, as a string. As its
/// documentation says, an absolute `rest` replaces `base`, and a relative
/// one is added after a separator. What it does when `base` is empty or
/// already ends in a separator its documentation does not say, so the
/// contract leaves those cases to the name `path_joined` alone.
#[verifier::external_body]
fn join_path(base: &str, rest: &str) -> (r: String)
    ensures
        r@ == path_joined(base@, rest@),
        text::has_prefix(rest@, "/"@) ==> r@ == rest@,
        !text::has_prefix(rest@, "/"@) && base@.len() > 0 && !text::has_suffix(base@, "/"@) ==> r@
            == base@ + "/"@ + rest@,
{
    std::path::PathBuf::from(base).join(rest).to_string_lossy().to_string()
}

/// The binary found on the search path, or `default` when none was found.
pub fn which_or(found: Option<String>, default: &str) -> (r: String)
    ensures
        r@ == (match found {
            Some(p) => p@,
            None => default@,
        }),
{
    match found {
        Some(p) => p,
        None => text::owned(default),
    }
}

/// Expand a leading "~/" to the home directory `home`, when it is known;
/// any other path is left as it is.
pub fn expand_home(path: &str, home: Option<&str>) -> (r: String)
    ensures
        text::has_prefix(path@, "~/"@) && home is Some ==> r@ == path_joined(home->0@, path@.skip(2)),
        !(text::has_prefix(path@, "~/"@) && home is Some) ==> r@ == path@,
        text::has_prefix(path@, "~/"@) && home is Some && home->0@.len() > 0 && !text::has_suffix(
            home->0@,
            "/"@,
        ) && !text::has_prefix(path@.skip(2), "/"@) ==> r@ == home->0@ + "/"@ + path@.skip(2),
        text::has_prefix(path@, "~/"@) && home is Some && text::has_prefix(path@.skip(2), "/"@) ==> r@
            == path@.skip(2),
{
    if text::starts_with(path, "~/") {
        match home {
            Some(h) => {
                proof {
                    reveal_strlit("~/");
                }
                let n = path.unicode_len();
                let rest = path.substring_char(2, n);
                return join_path(h, rest);
            },
            None => {},
        }
    }
    text::owned(path)
}

} // verus!
