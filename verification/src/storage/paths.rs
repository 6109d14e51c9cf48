//! Paths as text: how a storage path is read from a base, and how a path
//! falls into the directory that holds it and the name it has there.
//!
//! A path is taken as it is written. Nothing here follows `.` or `..`, folds
//! two slashes into one or drops a slash at the end.

use vstd::prelude::*;
use vstd::string::{StrSliceExecFns, StringExecFns};

verus! {

/// The path that `path` names when read from `base`: `path` itself where it
/// is absolute, `base` with `path` behind it otherwise, a slash between the
/// two unless `base` is empty or already ends in one.
///
/// An absolute `path`, and one that climbs with `..`, leaves `base` behind.
/// Nothing here prevents that.
pub open spec fn joined(base: Seq<char>, path: Seq<char>) -> Seq<char> {
    if path.len() > 0 && path[0] == '/' {
        path
    } else if base.len() == 0 || base.last() == '/' {
        base + path
    } else {
        base + seq!['/'] + path
    }
}

/// The path that `path` names when read from `base`.
pub fn join(base: &str, path: &str) -> (r: String)
    ensures
        r@ == joined(base@, path@),
{
    proof {
        reveal_strlit("/");
    }
    if !path.is_empty() && path.get_char(0) == '/' {
        String::from_str(path)
    } else if base.is_empty() || base.get_char(base.unicode_len() - 1) == '/' {
        String::from_str(base).concat(path)
    } else {
        String::from_str(base).concat("/").concat(path)
    }
}

/// A relative path resolves to a place whose text begins with the base. An
/// absolute one resolves to itself, wherever the base is: this is how a path
/// from outside can leave the storage root.
pub proof fn lemma_where_paths_resolve(base: Seq<char>, path: Seq<char>)
    ensures
        path.len() > 0 && path[0] == '/' ==> joined(base, path) == path,
        !(path.len() > 0 && path[0] == '/') ==> base.is_prefix_of(joined(base, path))
            && path.is_suffix_of(joined(base, path)),
{
}

/// The place of the last slash in `path`, if it has one.
pub open spec fn last_separator(path: Seq<char>) -> Option<int>
    decreases path.len(),
{
    if path.len() == 0 {
        None
    } else if path.last() == '/' {
        Some(path.len() - 1)
    } else {
        last_separator(path.drop_last())
    }
}

/// The name under which `path` is listed in the directory that holds it:
/// what follows its last slash, or all of it where it has none.
pub open spec fn name_of(path: Seq<char>) -> Seq<char> {
    match last_separator(path) {
        Some(at) => path.skip(at + 1),
        None => path,
    }
}

/// The directory that holds `path`: what stands before its last slash, the
/// root for a path directly below it, the empty path for a lone name. `None`
/// for a path that names nothing in a directory: the empty path, the root,
/// any path that ends in a slash, and any with two slashes in a row before
/// its name.
pub open spec fn parent_of(path: Seq<char>) -> Option<Seq<char>> {
    if name_of(path).len() == 0 {
        None
    } else {
        match last_separator(path) {
            None => Some(Seq::empty()),
            Some(at) => if at == 0 {
                Some(seq!['/'])
            } else if path[at - 1] == '/' {
                None
            } else {
                Some(path.take(at))
            },
        }
    }
}

/// Whether `path` is one of the two paths that hold others and are held by
/// none: the empty path, from which lone names are read, and the root.
pub open spec fn top(path: Seq<char>) -> bool {
    path.len() == 0 || path == seq!['/']
}

/// Whether `path` can be a directory's path: the empty path, the root, or a
/// path that does not end in a slash.
pub open spec fn plain(path: Seq<char>) -> bool {
    top(path) || path.last() != '/'
}

/// Whether `name` holds no slash.
pub open spec fn slash_free(name: Seq<char>) -> bool {
    forall|i: int| 0 <= i < name.len() ==> name[i] != '/'
}

/// Whether `name` can be an entry's name: not empty, and without a slash.
pub open spec fn well_named(name: Seq<char>) -> bool {
    name.len() > 0 && slash_free(name)
}

/// The last slash of a path lies within the path and has no slash behind
/// it; a path without one holds no slash.
pub proof fn lemma_last_separator_is_last(path: Seq<char>)
    ensures
        match last_separator(path) {
            Some(at) => 0 <= at < path.len() && path[at] == '/' && forall|j: int|
                at < j < path.len() ==> path[j] != '/',
            None => slash_free(path),
        },
    decreases path.len(),
{
    if path.len() > 0 && path.last() != '/' {
        let front = path.drop_last();
        lemma_last_separator_is_last(front);
        match last_separator(front) {
            Some(at) => {
                assert forall|j: int| at < j < path.len() implies path[j] != '/' by {
                    if j < front.len() {
                        assert(front[j] == path[j]);
                    }
                }
            },
            None => {
                assert forall|j: int| 0 <= j < path.len() implies path[j] != '/' by {
                    if j < front.len() {
                        assert(front[j] == path[j]);
                    }
                }
            },
        }
    }
}

/// Names that hold no slash do not move a path's last slash.
pub proof fn lemma_last_separator_skips_name(front: Seq<char>, name: Seq<char>)
    requires
        slash_free(name),
    ensures
        last_separator(front + name) == last_separator(front),
    decreases name.len(),
{
    if name.len() > 0 {
        let shorter = name.drop_last();
        assert(slash_free(shorter));
        lemma_last_separator_skips_name(front, shorter);
        assert((front + name).drop_last() == front + shorter);
    }
}

/// A path is the directory that holds it joined with its name; the name is
/// a good one, and the directory a shorter, plain path.
pub proof fn lemma_path_splits(path: Seq<char>)
    ensures
        parent_of(path) matches Some(dir) ==> joined(dir, name_of(path)) == path && well_named(
            name_of(path),
        ) && dir.len() < path.len() && plain(dir),
{
    lemma_last_separator_is_last(path);
    if parent_of(path) is Some {
        assert(slash_free(name_of(path)));
    }
}

/// A plain path joined with a good name is held by that path, under that
/// name.
pub proof fn lemma_joined_splits_back(dir: Seq<char>, name: Seq<char>)
    requires
        plain(dir),
        well_named(name),
    ensures
        parent_of(joined(dir, name)) == Some(dir),
        name_of(joined(dir, name)) == name,
{
    if top(dir) {
        lemma_last_separator_skips_name(dir, name);
    } else {
        lemma_last_separator_skips_name(dir + seq!['/'], name);
    }
}

/// The directory that holds a path is another, shorter path.
pub proof fn lemma_parent_is_shorter(path: Seq<char>)
    ensures
        parent_of(path) matches Some(dir) ==> dir.len() < path.len(),
{
    lemma_path_splits(path);
}

/// A path that a coherent disk holds is plain.
pub proof fn lemma_held_paths_are_plain(path: Seq<char>)
    requires
        top(path) || parent_of(path) is Some,
    ensures
        plain(path),
{
}

} // verus!
