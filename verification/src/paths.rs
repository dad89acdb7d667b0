//! File system paths (`std::path`), as text. The server runs on Unix, where
//! `/` separates path components.

use vstd::prelude::*;
use crate::text::{has_char, has_double_dot};

verus! {

/// The parent of a path as `Path::parent` computes it.
pub uninterp spec fn spec_path_parent(p: Seq<char>) -> Option<Seq<char>>;

/// `Path::new(p).parent()`: the path without its final component, `None`
/// when the path ends in a root or is empty. The result is named, not
/// described.
#[verifier::external_body]
pub(crate) fn path_parent(p: &str) -> (res: Option<String>)
    ensures
        crate::auth::opt_seq(res) == spec_path_parent(p@),
{
    match std::path::Path::new(p).parent() {
        Some(q) => Some(q.to_string_lossy().into_owned()),
        None => None,
    }
}

/// `a` joined with `b` as `Path::join` computes it on Unix: an absolute `b`
/// replaces `a`; otherwise `b` follows `a`, with a `/` between them unless
/// `a` is empty or already ends in one.
pub open spec fn spec_path_join(a: Seq<char>, b: Seq<char>) -> Seq<char> {
    if is_absolute(b) {
        b
    } else if a.len() == 0 || a.last() == '/' {
        a + b
    } else {
        a + seq!['/'] + b
    }
}

/// `Path::new(a).join(b)`: `b` appended to `a` with a separator where one is
/// needed, or `b` alone when it is absolute.
#[verifier::external_body]
pub(crate) fn path_join(a: &str, b: &str) -> (res: String)
    ensures
        res@ == spec_path_join(a@, b@),
{
    std::path::Path::new(a).join(b).to_string_lossy().into_owned()
}

/// On Unix a path is absolute when it starts at the root `/`.
pub open spec fn is_absolute(p: Seq<char>) -> bool {
    p.len() > 0 && p[0] == '/'
}

/// `Path::new(p).is_absolute()`: on Unix, whether the path starts with `/`.
#[verifier::external_body]
pub(crate) fn path_is_absolute(p: &str) -> (res: bool)
    ensures
        res == is_absolute(p@),
{
    std::path::Path::new(p).is_absolute()
}

/// Whether path `p` lies under `base`, as `Path::starts_with` decides it
/// (component by component).
pub uninterp spec fn spec_path_starts_with(p: Seq<char>, base: Seq<char>) -> bool;

/// `Path::new(p).starts_with(base)`: whether `base` is a prefix of `p`,
/// compared by whole components. The result is named, not described.
#[verifier::external_body]
pub(crate) fn path_starts_with(p: &str, base: &str) -> (res: bool)
    ensures
        res == spec_path_starts_with(p@, base@),
{
    std::path::Path::new(p).starts_with(base)
}

/// `Path::new(name).file_name()` for a name that is a single component (not
/// empty, no `/`, no `..`): the name itself, except for `.`, which names no
/// file.
#[verifier::external_body]
pub(crate) fn single_component_file_name(name: &str) -> (res: Option<String>)
    requires
        name@.len() > 0,
        !has_char(name@, '/'),
        !has_double_dot(name@),
    ensures
        crate::auth::opt_seq(res) == (if name@ == seq!['.'] {
            None
        } else {
            Some(name@)
        }),
{
    match std::path::Path::new(name).file_name() {
        Some(f) => Some(f.to_string_lossy().into_owned()),
        None => None,
    }
}

/// The depth after one more component `cur`: a ".." climbs one level, an
/// empty or "." component stays, any other goes one level down.
pub open spec fn depth_after(d: int, cur: Seq<char>) -> int {
    if cur == seq!['.', '.'] {
        d - 1
    } else if cur.len() == 0 || cur == seq!['.'] {
        d
    } else {
        d + 1
    }
}

/// The lowest depth reached right after a ".." component, updated with the
/// component `cur` that was entered at depth `d`.
pub open spec fn lowest_after(low: Option<int>, d: int, cur: Seq<char>) -> Option<int> {
    if cur == seq!['.', '.'] {
        match low {
            Some(m) => Some(if m < d - 1 {
                m
            } else {
                d - 1
            }),
            None => Some(d - 1),
        }
    } else {
        low
    }
}

/// Walking the path `p` from its start, component by component: the depth
/// reached before the component being read, that component so far, and the
/// lowest depth reached right after a "..".
pub open spec fn walk(p: Seq<char>) -> (int, Seq<char>, Option<int>)
    decreases p.len(),
{
    if p.len() == 0 {
        (0, Seq::empty(), None)
    } else {
        let (d, cur, low) = walk(p.drop_last());
        if p.last() == '/' {
            (depth_after(d, cur), Seq::empty(), lowest_after(low, d, cur))
        } else {
            (d, cur.push(p.last()), low)
        }
    }
}

/// How deep the path `p` leads once normalised: components down, minus
/// ".." components up.
pub open spec fn path_depth(p: Seq<char>) -> int {
    depth_after(walk(p).0, walk(p).1)
}

/// The lowest depth the path `p` climbs to with a "..", if it has one.
pub open spec fn lowest_depth(p: Seq<char>) -> Option<int> {
    lowest_after(walk(p).2, walk(p).0, walk(p).1)
}

/// Whether the path `full`, which starts with the directory `base`, climbs
/// above it once normalised.
pub open spec fn climbs_out(full: Seq<char>, base: Seq<char>) -> bool {
    lowest_depth(full) matches Some(m) && m < path_depth(base)
}

fn is_dot_dot(cur: &Vec<char>) -> (res: bool)
    ensures
        res == (cur@ == seq!['.', '.']),
{
    let r = cur.len() == 2 && cur[0] == '.' && cur[1] == '.';
    if r {
        assert(cur@ =~= seq!['.', '.']);
    }
    r
}

fn is_dot_or_empty(cur: &Vec<char>) -> (res: bool)
    ensures
        res == (cur@.len() == 0 || cur@ == seq!['.']),
{
    let r = cur.len() == 0 || (cur.len() == 1 && cur[0] == '.');
    if cur.len() == 1 && cur[0] == '.' {
        assert(cur@ =~= seq!['.']);
    }
    r
}

/// The depth of the path once normalised, and the lowest depth it climbs
/// to with a ".." (see `path_depth` and `lowest_depth`).
pub fn walk_path(p: &str) -> (res: (i128, Option<i128>))
    ensures
        res.0 == path_depth(p@),
        match res.1 {
            Some(m) => lowest_depth(p@) == Some(m as int),
            None => lowest_depth(p@) is None,
        },
{
    let chars = crate::text::str_chars(p);
    let mut d: i128 = 0;
    let mut cur: Vec<char> = Vec::new();
    let mut low: Option<i128> = None;
    let mut i: usize = 0;
    assert(p@.take(0) =~= Seq::<char>::empty());
    while i < chars.len()
        invariant
            chars@ == p@,
            i <= chars@.len(),
            walk(p@.take(i as int)).0 == d as int,
            walk(p@.take(i as int)).1 == cur@,
            match low {
                Some(m) => walk(p@.take(i as int)).2 == Some(m as int) && -(i as int) <= m <= i,
                None => walk(p@.take(i as int)).2 is None,
            },
            -(i as int) <= d <= i,
            cur@.len() <= i,
        decreases chars@.len() - i,
    {
        assert(p@.take(i + 1).drop_last() =~= p@.take(i as int));
        assert(p@.take(i + 1).last() == chars@[i as int]);
        let c = chars[i];
        if c == '/' {
            let dd = is_dot_dot(&cur);
            if dd {
                low = match low {
                    Some(m) => Some(if m < d - 1 { m } else { d - 1 }),
                    None => Some(d - 1),
                };
                d = d - 1;
            } else if !is_dot_or_empty(&cur) {
                d = d + 1;
            }
            cur = Vec::new();
        } else {
            cur.push(c);
        }
        i = i + 1;
    }
    assert(p@.take(i as int) =~= p@);
    let dd = is_dot_dot(&cur);
    if dd {
        let nl = match low {
            Some(m) => Some(if m < d - 1 { m } else { d - 1 }),
            None => Some(d - 1),
        };
        (d - 1, nl)
    } else if !is_dot_or_empty(&cur) {
        (d + 1, low)
    } else {
        (d, low)
    }
}

} // verus!
