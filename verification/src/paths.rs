//! A string model of filesystem paths.
//!
//! Paths are plain strings whose components are separated by `/`. The
//! functions here are the only path operations the crate performs: testing a
//! suffix (file extensions), splitting off the last component, and joining.

use vstd::prelude::*;
use vstd::string::StrSliceExecFns;
use vstd::string::StringExecFns;

verus! {

/// `suffix` is the tail of `s`.
pub open spec fn ends_with(s: Seq<char>, suffix: Seq<char>) -> bool {
    suffix.len() <= s.len() && s.subrange(s.len() - suffix.len(), s.len() as int)
        == suffix
}

/// Index of the last `/` in `s`, or `-1` if there is none.
pub open spec fn last_slash(s: Seq<char>) -> int
    decreases s.len(),
{
    if s.len() == 0 {
        -1
    } else if s[s.len() - 1] == '/' {
        s.len() - 1
    } else {
        last_slash(s.drop_last())
    }
}

/// Everything after the last `/` (the whole of `s` when it has no `/`).
pub open spec fn base_name_spec(s: Seq<char>) -> Seq<char> {
    s.subrange(last_slash(s) + 1, s.len() as int)
}

/// Everything before the last `/` (empty when `s` has no `/`).
pub open spec fn parent_spec(s: Seq<char>) -> Seq<char> {
    if last_slash(s) < 0 {
        Seq::empty()
    } else {
        s.subrange(0, last_slash(s))
    }
}

/// Joining an empty left side yields the right side unchanged, so relative
/// names stay relative.
pub open spec fn spec_join(a: Seq<char>, b: Seq<char>) -> Seq<char> {
    if a.len() == 0 {
        b
    } else {
        a + seq!['/'] + b
    }
}

proof fn lemma_last_slash_none(s: Seq<char>)
    requires
        forall|k: int| 0 <= k < s.len() ==> s[k] != '/',
    ensures
        last_slash(s) == -1,
    decreases s.len(),
{
    if s.len() > 0 {
        lemma_last_slash_none(s.drop_last());
    }
}

proof fn lemma_last_slash_at(s: Seq<char>, j: int)
    requires
        0 <= j < s.len(),
        s[j] == '/',
        forall|k: int| j < k < s.len() ==> s[k] != '/',
    ensures
        last_slash(s) == j,
    decreases s.len(),
{
    if j < s.len() - 1 {
        lemma_last_slash_at(s.drop_last(), j);
    }
}

/// Whether `s` ends with `suffix`, by characters.
pub fn str_ends_with(s: &str, suffix: &str) -> (r: bool)
    ensures
        r == ends_with(s@, suffix@),
{
    let n = s.unicode_len();
    let m = suffix.unicode_len();
    if m > n {
        return false;
    }
    let mut i: usize = 0;
    while i < m
        invariant
            m <= n,
            n == s@.len(),
            m == suffix@.len(),
            0 <= i <= m,
            forall|k: int| 0 <= k < i ==> s@[n - m + k] == suffix@[k],
        decreases m - i,
    {
        if s.get_char(n - m + i) != suffix.get_char(i) {
            proof {
                assert(ends_with(s@, suffix@) ==> s@.subrange(
                    s@.len() - suffix@.len(),
                    s@.len() as int,
                )[i as int] == suffix@[i as int]);
            }
            return false;
        }
        i += 1;
    }
    proof {
        assert(s@.subrange(s@.len() - suffix@.len(), s@.len() as int) =~= suffix@);
    }
    true
}

/// Whether two strings hold the same characters.
pub fn str_eq(a: &str, b: &str) -> (r: bool)
    ensures
        r == (a@ == b@),
{
    let n = a.unicode_len();
    if n != b.unicode_len() {
        return false;
    }
    let mut i: usize = 0;
    while i < n
        invariant
            n == a@.len(),
            n == b@.len(),
            0 <= i <= n,
            forall|k: int| 0 <= k < i ==> a@[k] == b@[k],
        decreases n - i,
    {
        if a.get_char(i) != b.get_char(i) {
            proof {
                assert(a@ == b@ ==> a@[i as int] == b@[i as int]);
            }
            return false;
        }
        i += 1;
    }
    proof {
        assert(a@ =~= b@);
    }
    true
}

/// `a` and `b` joined with a `/`, with an empty `a` dropped.
pub fn path_join(a: &str, b: &str) -> (r: String)
    ensures
        r@ == spec_join(a@, b@),
{
    if a.unicode_len() == 0 {
        return b.to_owned();
    }
    let mut s = a.to_owned();
    s.append("/");
    s.append(b);
    proof {
        reveal_strlit("/");
        assert("/"@ =~= seq!['/']);
    }
    s
}

/// Index just past the last `/` of `s` (0 when there is none).
fn after_last_slash(s: &str) -> (r: usize)
    ensures
        r == last_slash(s@) + 1,
        r <= s@.len(),
{
    let n = s.unicode_len();
    let mut i: usize = n;
    while i > 0 && s.get_char(i - 1) != '/'
        invariant
            n == s@.len(),
            0 <= i <= n,
            forall|k: int| i <= k < n ==> s@[k] != '/',
        decreases i,
    {
        i -= 1;
    }
    proof {
        if i == 0 {
            lemma_last_slash_none(s@);
        } else {
            lemma_last_slash_at(s@, i - 1);
        }
    }
    i
}

/// The last path component of `s`.
pub fn base_name(s: &str) -> (r: String)
    ensures
        r@ == base_name_spec(s@),
{
    let n = s.unicode_len();
    let i = after_last_slash(s);
    s.substring_char(i, n).to_owned()
}

/// The path of the directory that holds `s`.
pub fn parent_dir(s: &str) -> (r: String)
    ensures
        r@ == parent_spec(s@),
{
    let i = after_last_slash(s);
    if i == 0 {
        String::new()
    } else {
        s.substring_char(0, i - 1).to_owned()
    }
}

/// The characters of each string in `s`.
pub open spec fn str_views(s: Seq<String>) -> Seq<Seq<char>> {
    s.map_values(|x: String| x@)
}

/// The name denotes a compiled-asset file.
pub open spec fn is_pak_name(s: Seq<char>) -> bool {
    ends_with(s, ".pak"@)
}

/// The name has a `.zip` extension: its base name ends in `.zip` with a
/// non-empty stem before it (a file named just `.zip` has no extension).
pub open spec fn is_zip_name(s: Seq<char>) -> bool {
    ends_with(s, ".zip"@) && base_name_spec(s).len() > ".zip"@.len()
}

/// The name has a `.7z` extension: its base name ends in `.7z` with a
/// non-empty stem before it.
pub open spec fn is_7z_name(s: Seq<char>) -> bool {
    ends_with(s, ".7z"@) && base_name_spec(s).len() > ".7z"@.len()
}

/// The name denotes a recognized compressed archive.
pub open spec fn is_archive_name(s: Seq<char>) -> bool {
    is_zip_name(s) || is_7z_name(s)
}

/// Whether the name denotes a compiled-asset file.
pub fn is_pak(s: &str) -> (r: bool)
    ensures
        r == is_pak_name(s@),
{
    str_ends_with(s, ".pak")
}

/// Whether the name has a `.zip` extension.
pub fn is_zip(s: &str) -> (r: bool)
    ensures
        r == is_zip_name(s@),
{
    str_ends_with(s, ".zip") && base_name(s).unicode_len() > ".zip".unicode_len()
}

/// Whether the name has a `.7z` extension.
pub fn is_7z(s: &str) -> (r: bool)
    ensures
        r == is_7z_name(s@),
{
    str_ends_with(s, ".7z") && base_name(s).unicode_len() > ".7z".unicode_len()
}

/// Whether the name denotes a recognized compressed archive.
pub fn is_archive(s: &str) -> (r: bool)
    ensures
        r == is_archive_name(s@),
{
    is_zip(s) || is_7z(s)
}

} // verus!
