//! A textual model of filesystem paths.
//!
//! Paths are plain strings whose components are separated by `'/'`.  The
//! functions here are the pure path arithmetic the orchestrator needs:
//! locating the extension of a file name, swapping it for a target extension,
//! testing whether a path lies under a root directory, taking the path
//! relative to that root, and joining a directory with a relative path.

use vstd::prelude::*;
use vstd::string::StrSliceExecFns;
use vstd::string::StringExecFns;

verus! {

/// The largest index `i <= from` with `s[i] == c`, if any.
pub open spec fn last_pos_from(s: Seq<char>, c: char, from: int) -> Option<int>
    decreases from + 1,
{
    if from < 0 {
        None
    } else if s[from] == c {
        Some(from)
    } else {
        last_pos_from(s, c, from - 1)
    }
}

/// The largest index of `c` in `s`, if any.
pub open spec fn last_pos(s: Seq<char>, c: char) -> Option<int> {
    last_pos_from(s, c, s.len() - 1)
}

/// Index at which the file name (the last path component) starts.
pub open spec fn name_start(p: Seq<char>) -> int {
    match last_pos(p, '/') {
        Some(i) => i + 1,
        None => 0,
    }
}

/// Index of the dot that begins the extension of `p`'s file name, if any.
/// A dot that starts the file name (a hidden file) does not begin an
/// extension, and neither does a dot in an earlier component.
pub open spec fn ext_dot(p: Seq<char>) -> Option<int> {
    match last_pos(p, '.') {
        Some(i) => if i > name_start(p) {
            Some(i)
        } else {
            None
        },
        None => None,
    }
}

/// The extension of `p`'s file name (the part after the final dot), if any.
pub open spec fn ext_of(p: Seq<char>) -> Option<Seq<char>> {
    match ext_dot(p) {
        Some(i) => Some(p.subrange(i + 1, p.len() as int)),
        None => None,
    }
}

/// `p` with its extension replaced by `e`; a path without an extension
/// receives `.` followed by `e` appended.
pub open spec fn with_ext(p: Seq<char>, e: Seq<char>) -> Seq<char> {
    match ext_dot(p) {
        Some(i) => p.subrange(0, i + 1) + e,
        None => p + seq!['.'] + e,
    }
}

/// `p` names an entry strictly below the directory `root`: it extends `root`
/// by a separator and a non-empty remainder.
pub open spec fn is_under(p: Seq<char>, root: Seq<char>) -> bool {
    &&& p.len() > root.len() + 1
    &&& p.subrange(0, root.len() as int) == root
    &&& p[root.len() as int] == '/'
}

/// The part of `p` after `root` and its separator.
pub open spec fn rel_under(p: Seq<char>, root: Seq<char>) -> Seq<char> {
    p.subrange(root.len() as int + 1, p.len() as int)
}

/// `dir`, a separator, then `rel`.
pub open spec fn join(dir: Seq<char>, rel: Seq<char>) -> Seq<char> {
    dir + seq!['/'] + rel
}

/// The directory part of `p`: everything before the last separator, if there
/// is one.
pub open spec fn parent_spec(p: Seq<char>) -> Option<Seq<char>> {
    match last_pos(p, '/') {
        Some(i) => Some(p.subrange(0, i)),
        None => None,
    }
}

/// Index of the last occurrence of `c` in `s`, scanning from the end.
pub fn find_last(s: &str, c: char) -> (r: Option<usize>)
    ensures
        match r {
            Some(i) => last_pos(s@, c) == Some(i as int) && i < s@.len(),
            None => last_pos(s@, c) is None,
        },
{
    let n: usize = s.unicode_len();
    let mut i: usize = n;
    while i > 0
        invariant
            i <= n,
            n == s@.len(),
            last_pos_from(s@, c, n - 1) == last_pos_from(s@, c, i - 1),
        decreases i,
    {
        i = i - 1;
        let ch = s.get_char(i);
        if ch == c {
            return Some(i);
        }
    }
    None
}

/// Character-wise string equality.
pub fn str_eq(a: &str, b: &str) -> (r: bool)
    ensures
        r == (a@ == b@),
{
    let na: usize = a.unicode_len();
    let nb: usize = b.unicode_len();
    if na != nb {
        return false;
    }
    let mut i: usize = 0;
    while i < na
        invariant
            i <= na,
            na == a@.len(),
            nb == b@.len(),
            na == nb,
            forall|j: int| 0 <= j < i ==> a@[j] == b@[j],
        decreases na - i,
    {
        if a.get_char(i) != b.get_char(i) {
            return false;
        }
        i = i + 1;
    }
    proof {
        assert(a@ =~= b@);
    }
    true
}

/// The extension of `s`'s file name, if any.
pub fn extension_of(s: &str) -> (r: Option<String>)
    ensures
        (r is Some) == (ext_of(s@) is Some),
        r is Some ==> r->0@ == ext_of(s@)->0,
{
    let n: usize = s.unicode_len();
    let slash = find_last(s, '/');
    let dot = find_last(s, '.');
    match dot {
        None => None,
        Some(d) => {
            let ns: usize = match slash {
                Some(j) => j + 1,
                None => 0,
            };
            if d > ns {
                Some(s.substring_char(d + 1, n).to_owned())
            } else {
                None
            }
        },
    }
}

/// `s` with its extension replaced by `e`; appends `.` and `e` when `s` has
/// no extension.
pub fn with_extension(s: &str, e: &str) -> (r: String)
    ensures
        r@ == with_ext(s@, e@),
{
    let n: usize = s.unicode_len();
    let slash = find_last(s, '/');
    let dot = find_last(s, '.');
    let ns: usize = match slash {
        Some(j) => j + 1,
        None => 0,
    };
    match dot {
        Some(d) => {
            if d > ns {
                let stem = s.substring_char(0, d + 1);
                return String::from_str(stem).concat(e);
            }
            let r = String::from_str(s).concat(".").concat(e);
            proof {
                reveal_strlit(".");
                assert(r@ =~= with_ext(s@, e@));
            }
            r
        },
        None => {
            let r = String::from_str(s).concat(".").concat(e);
            proof {
                reveal_strlit(".");
                assert(r@ =~= with_ext(s@, e@));
            }
            r
        },
    }
}

/// The path of `p` relative to `root`, or `None` when `p` is not strictly
/// below `root`.
pub fn rel_path_under(p: &str, root: &str) -> (r: Option<String>)
    ensures
        (r is Some) == is_under(p@, root@),
        r is Some ==> r->0@ == rel_under(p@, root@),
{
    let np: usize = p.unicode_len();
    let nr: usize = root.unicode_len();
    if np <= nr {
        return None;
    }
    if np - nr < 2 {
        return None;
    }
    let prefix = p.substring_char(0, nr);
    if !str_eq(prefix, root) {
        return None;
    }
    if p.get_char(nr) != '/' {
        return None;
    }
    Some(p.substring_char(nr + 1, np).to_owned())
}

/// The directory holding `p`, or `None` when `p` has no separator.
pub fn parent_of(p: &str) -> (r: Option<String>)
    ensures
        (r is Some) == (parent_spec(p@) is Some),
        r is Some ==> r->0@ == parent_spec(p@)->0,
{
    match find_last(p, '/') {
        Some(i) => Some(p.substring_char(0, i).to_owned()),
        None => None,
    }
}

/// `dir`, `/`, then `rel`.
pub fn join_path(dir: &str, rel: &str) -> (r: String)
    ensures
        r@ == join(dir@, rel@),
{
    let r = String::from_str(dir).concat("/").concat(rel);
    proof {
        reveal_strlit("/");
        assert(r@ =~= join(dir@, rel@));
    }
    r
}

} // verus!
