//! The path model.
//!
//! A path is a `String` whose components are separated by `/`. The library
//! never parses paths beyond this: every path it sees was produced by
//! walking a root directory, so it is the root, or the root followed by a
//! separator and a non-empty remainder. Prefix tests respect component
//! boundaries: `a/b` is a prefix of `a/b/c` but not of `a/bc`.

use vstd::prelude::*;

use crate::errors::{is_strip_error, strip_prefix_error, ProcessPathError};

verus! {

/// `path` lies strictly below `prefix`: it begins with `prefix` followed by
/// a separator.
pub open spec fn is_dir_prefix(prefix: Seq<char>, path: Seq<char>) -> bool {
    &&& path.len() > prefix.len()
    &&& path.subrange(0, prefix.len() as int) == prefix
    &&& path[prefix.len() as int] == '/'
}

/// Component-boundary-aware prefix test: `path` is `prefix` itself, or lies
/// strictly below it.
pub open spec fn spec_path_starts_with(path: Seq<char>, prefix: Seq<char>) -> bool {
    path == prefix || is_dir_prefix(prefix, path)
}

/// `path` with its `root` prefix (and the separator after it) removed: the
/// key that correlates a source entry with its destination counterpart.
pub open spec fn spec_rel_of(root: Seq<char>, path: Seq<char>) -> Seq<char>
    recommends
        spec_path_starts_with(path, root),
{
    if path == root {
        Seq::<char>::empty()
    } else {
        path.subrange(root.len() as int + 1, path.len() as int)
    }
}

/// A root rejoined with a relative path.
pub open spec fn spec_joined(root: Seq<char>, rel: Seq<char>) -> Seq<char> {
    if rel.len() == 0 {
        root
    } else {
        root + seq!['/'] + rel
    }
}

/// The views of a list of paths.
pub open spec fn views_of(v: Seq<String>) -> Seq<Seq<char>> {
    v.map_values(|s: String| s@)
}

/// Some path of `prefixes` is `path` or an ancestor of it.
pub open spec fn spec_under_any(prefixes: Seq<Seq<char>>, path: Seq<char>) -> bool {
    exists|i: int| 0 <= i < prefixes.len() && spec_path_starts_with(path, prefixes[i])
}

/// String equality by contents.
pub fn str_eq(a: &str, b: &str) -> (r: bool)
    ensures
        r == (a@ == b@),
{
    a.to_owned() == b.to_owned()
}

/// Component-boundary-aware prefix test on strings.
pub fn path_starts_with(path: &str, prefix: &str) -> (r: bool)
    ensures
        r == spec_path_starts_with(path@, prefix@),
{
    let n = path.unicode_len();
    let m = prefix.unicode_len();
    if n < m {
        return false;
    }
    let mut i: usize = 0;
    while i < m
        invariant
            0 <= i <= m,
            m == prefix@.len(),
            n == path@.len(),
            m <= n,
            forall|j: int| 0 <= j < i ==> path@[j] == prefix@[j],
        decreases m - i,
    {
        if path.get_char(i) != prefix.get_char(i) {
            proof {
                assert(path@.subrange(0, m as int)[i as int] == path@[i as int]);
            }
            return false;
        }
        i += 1;
    }
    if n == m {
        proof {
            assert(path@ =~= prefix@);
        }
        true
    } else {
        proof {
            assert(path@.subrange(0, m as int) =~= prefix@);
        }
        path.get_char(m) == '/'
    }
}

/// Strips `root` (and the separator after it) from `path`; `None` when
/// `path` does not lie at or below `root`.
pub fn strip_path_prefix(root: &str, path: &str) -> (r: Option<String>)
    ensures
        r is Some <==> spec_path_starts_with(path@, root@),
        r matches Some(rel) ==> rel@ == spec_rel_of(root@, path@),
{
    if path_starts_with(path, root) {
        let n = path.unicode_len();
        let m = root.unicode_len();
        if n == m {
            proof {
                assert(path@ =~= root@);
            }
            Some(String::new())
        } else {
            Some(path.substring_char(m + 1, n).to_owned())
        }
    } else {
        None
    }
}

/// Joins a root with a relative path.
pub fn join_path(root: &str, rel: &str) -> (r: String)
    ensures
        r@ == spec_joined(root@, rel@),
{
    if rel.unicode_len() == 0 {
        root.to_owned()
    } else {
        proof {
            reveal_strlit("/");
        }
        let mut s = root.to_owned();
        s.append("/");
        s.append(rel);
        proof {
            assert(s@ =~= spec_joined(root@, rel@));
        }
        s
    }
}

/// Computes the destination counterpart of a source path: the source root
/// is replaced by the destination root. Fails (with the invariant-broken
/// error) exactly when the path does not lie at or below the source root.
pub fn get_destination_file_path(
    destination_root: &str,
    source_root: &str,
    source_path: &str,
) -> (r: Result<String, ProcessPathError>)
    ensures
        r is Ok <==> spec_path_starts_with(source_path@, source_root@),
        r matches Ok(d) ==> d@ == spec_joined(
            destination_root@,
            spec_rel_of(source_root@, source_path@),
        ),
        r matches Err(e) ==> is_strip_error(e, source_root@, source_path@),
{
    match strip_path_prefix(source_root, source_path) {
        Some(rel) => Ok(join_path(destination_root, rel.as_str())),
        None => Err(strip_prefix_error(source_root, source_path)),
    }
}

/// Does `path` lie at or below any of `prefixes`?
pub fn path_under_any(prefixes: &Vec<String>, path: &str) -> (r: bool)
    ensures
        r == spec_under_any(views_of(prefixes@), path@),
{
    let mut i: usize = 0;
    while i < prefixes.len()
        invariant
            0 <= i <= prefixes@.len(),
            forall|j: int| 0 <= j < i ==> !spec_path_starts_with(path@, views_of(prefixes@)[j]),
        decreases prefixes@.len() - i,
    {
        if path_starts_with(path, prefixes[i].as_str()) {
            proof {
                assert(views_of(prefixes@)[i as int] == prefixes@[i as int]@);
            }
            return true;
        }
        i += 1;
    }
    false
}

} // verus!
