//! Paths as text, with `/` as the separator.
//!
//! Paths that come out of a configuration file are relative to the directory
//! that holds the file. This module decides whether a path is absolute, finds
//! the directory of a file and places a relative path under a directory.

use vstd::prelude::*;
use vstd::string::*;

verus! {

/// The separator between the components of a path.
pub const SEPARATOR: char = '/';

/// A path is absolute when it starts at the root.
pub open spec fn is_absolute(path: Seq<char>) -> bool {
    path.len() > 0 && path[0] == SEPARATOR
}

/// `path` seen from `base`: an absolute `path` stands for itself, any other
/// is appended to `base`, with one separator between the two unless `base` is
/// empty or already ends in one.
pub open spec fn join(base: Seq<char>, path: Seq<char>) -> Seq<char> {
    if is_absolute(path) {
        path
    } else if base.len() == 0 || base.last() == SEPARATOR {
        base + path
    } else {
        base.push(SEPARATOR) + path
    }
}

/// The position of the last separator in `path`, if it holds one.
pub open spec fn last_separator(path: Seq<char>) -> Option<int>
    decreases path.len(),
{
    if path.len() == 0 {
        None
    } else if path.last() == SEPARATOR {
        Some(path.len() - 1)
    } else {
        last_separator(path.drop_last())
    }
}

/// The directory part of `path`: what stands before its last separator, or
/// the root itself where that separator is the leading one. The empty path
/// and the bare root have no parent; a path without a separator has the
/// empty path for its parent.
pub open spec fn parent(path: Seq<char>) -> Option<Seq<char>> {
    match last_separator(path) {
        None => if path.len() == 0 {
            None
        } else {
            Some(Seq::empty())
        },
        Some(at) => if at > 0 {
            Some(path.subrange(0, at))
        } else if path.len() == 1 {
            None
        } else {
            Some(seq![SEPARATOR])
        },
    }
}

/// The last separator is a separator of the path with none behind it, and
/// a path without one holds no separator.
pub proof fn lemma_last_separator(path: Seq<char>)
    ensures
        match last_separator(path) {
            Some(at) => {
                &&& 0 <= at < path.len()
                &&& path[at] == SEPARATOR
                &&& forall|behind: int| at < behind < path.len() ==> path[behind] != SEPARATOR
            },
            None => forall|at: int| 0 <= at < path.len() ==> path[at] != SEPARATOR,
        },
    decreases path.len(),
{
    if path.len() > 0 && path.last() != SEPARATOR {
        let head = path.drop_last();
        lemma_last_separator(head);
        assert forall|at: int| 0 <= at < head.len() implies head[at] == path[at] by {}
        match last_separator(head) {
            Some(found) => {
                assert forall|behind: int| found < behind < path.len() implies path[behind]
                    != SEPARATOR by {
                    if behind < head.len() {
                        assert(head[behind] != SEPARATOR);
                    }
                }
            },
            None => {
                assert forall|at: int| 0 <= at < path.len() implies path[at] != SEPARATOR by {
                    if at < head.len() {
                        assert(head[at] != SEPARATOR);
                    }
                }
            },
        }
    }
}

/// Whether `path` starts at the root.
pub fn path_is_absolute(path: &str) -> (absolute: bool)
    ensures
        absolute == is_absolute(path@),
{
    path.unicode_len() > 0 && path.get_char(0) == SEPARATOR
}

/// Places `path` under `base`.
pub fn path_join(base: &str, path: &str) -> (joined: String)
    ensures
        joined@ == join(base@, path@),
{
    if path_is_absolute(path) {
        return String::from_str(path);
    }
    let mut joined = String::from_str(base);
    let len: usize = base.unicode_len();
    if len > 0 && base.get_char(len - 1) != SEPARATOR {
        joined.append("/");
        proof {
            reveal_strlit("/");
            assert("/"@ =~= seq![SEPARATOR]);
            assert(base@ + seq![SEPARATOR] =~= base@.push(SEPARATOR));
        }
    }
    joined.append(path);
    joined
}

/// The directory part of `path`, if it has one.
pub fn path_parent(path: &str) -> (dir: Option<String>)
    ensures
        dir.deep_view() == parent(path@),
{
    let len: usize = path.unicode_len();
    if len == 0 {
        return None;
    }
    let mut end: usize = len;
    assert(path@.subrange(0, len as int) =~= path@);
    while end > 0
        invariant
            end <= len,
            len == path@.len(),
            last_separator(path@) == last_separator(path@.subrange(0, end as int)),
        decreases end,
    {
        let ghost head = path@.subrange(0, end as int);
        assert(head.drop_last() =~= path@.subrange(0, end - 1));
        assert(head.last() == path@[end - 1]);
        if path.get_char(end - 1) == SEPARATOR {
            if end > 1 {
                return Some(String::from_str(path.substring_char(0, end - 1)));
            } else if len == 1 {
                return None;
            } else {
                proof {
                    reveal_strlit("/");
                    assert("/"@ =~= seq![SEPARATOR]);
                }
                return Some(String::from_str("/"));
            }
        }
        end = end - 1;
    }
    assert(path@.subrange(0, 0).len() == 0);
    let dir = String::new();
    assert(dir@ =~= Seq::<char>::empty());
    Some(dir)
}

} // verus!
