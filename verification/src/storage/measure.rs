//! How many bytes lie under a path, and why a walk over the directories
//! counts exactly those.

use crate::storage::disk::{Disk, Node};
use crate::storage::paths::{joined, well_named};
use crate::storage::exchange::{
    files_total, subdirectories, EntryKind, FsRequestView, SessionView, StepView, WalkView,
};
use crate::storage::storage_manager::StorageOutcomeView;
use vstd::prelude::*;

verus! {

impl Disk {
    /// The number of bytes under `path`: the length of a file, and for a
    /// directory the bytes under each of its entries, at any depth.
    pub open spec fn measure(self, path: Seq<char>) -> nat
        decreases self.limit - path.len(), 1nat, 0nat,
    {
        match self.node(path) {
            Some(Node::File(data)) => data.len(),
            Some(Node::Directory(names)) => self.measure_entries(path, names),
            _ => 0,
        }
    }

    /// The number of bytes under the entries `names` of the directory `dir`.
    pub open spec fn measure_entries(self, dir: Seq<char>, names: Seq<Seq<char>>) -> nat
        decreases self.limit - dir.len(), 0nat, names.len(),
    {
        if names.len() == 0 {
            0
        } else {
            let child = joined(dir, names.last());
            self.measure_entries(dir, names.drop_last()) + if dir.len() < child.len()
                <= self.limit {
                self.measure(child)
            } else {
                0
            }
        }
    }

    /// The number of bytes under all of `paths` together.
    pub open spec fn measure_all(self, paths: Seq<Seq<char>>) -> nat
        decreases paths.len(),
    {
        if paths.len() == 0 {
            0
        } else {
            self.measure_all(paths.drop_last()) + self.measure(paths.last())
        }
    }

    /// The number of directories at and below `path`.
    pub open spec fn directories(self, path: Seq<char>) -> nat
        decreases self.limit - path.len(), 1nat, 0nat,
    {
        match self.node(path) {
            Some(Node::Directory(names)) => 1 + self.directories_among(path, names),
            _ => 0,
        }
    }

    /// The number of directories at and below the entries `names` of `dir`.
    pub open spec fn directories_among(self, dir: Seq<char>, names: Seq<Seq<char>>) -> nat
        decreases self.limit - dir.len(), 0nat, names.len(),
    {
        if names.len() == 0 {
            0
        } else {
            let child = joined(dir, names.last());
            self.directories_among(dir, names.drop_last()) + if dir.len() < child.len()
                <= self.limit {
                self.directories(child)
            } else {
                0
            }
        }
    }

    /// The number of directories at and below all of `paths` together.
    pub open spec fn directories_all(self, paths: Seq<Seq<char>>) -> nat
        decreases paths.len(),
    {
        if paths.len() == 0 {
            0
        } else {
            self.directories_all(paths.drop_last()) + self.directories(paths.last())
        }
    }

    /// Whether each of `paths` is a directory.
    pub open spec fn all_directories(self, paths: Seq<Seq<char>>) -> bool {
        forall|k: int|
            0 <= k < paths.len() ==> (#[trigger] self.node(paths[k])) matches Some(
                Node::Directory(_),
            )
    }
}

/// The bytes under two lots of paths are those under the one and those under
/// the other; so with directories.
pub proof fn lemma_sums_over_joined_paths(disk: Disk, first: Seq<Seq<char>>, second: Seq<Seq<char>>)
    ensures
        disk.measure_all(first + second) == disk.measure_all(first) + disk.measure_all(second),
        disk.directories_all(first + second) == disk.directories_all(first)
            + disk.directories_all(second),
    decreases second.len(),
{
    if second.len() > 0 {
        lemma_sums_over_joined_paths(disk, first, second.drop_last());
        assert((first + second).drop_last() == first + second.drop_last());
    }
}

/// What a directory's listing says adds up to what lies below the directory:
/// the bytes under its entries are the lengths of the files listed and the
/// bytes under the directories listed, and the directories listed are
/// directories.
pub proof fn lemma_listing_adds_up(disk: Disk, dir: Seq<char>, names: Seq<Seq<char>>)
    requires
        disk.coherent(),
        disk.well_listed(dir, names),
    ensures
        disk.measure_entries(dir, names) == files_total(disk.listing(dir, names))
            + disk.measure_all(subdirectories(dir, disk.listing(dir, names))),
        disk.directories_among(dir, names) == disk.directories_all(
            subdirectories(dir, disk.listing(dir, names)),
        ),
        disk.all_directories(subdirectories(dir, disk.listing(dir, names))),
    decreases names.len(),
{
    if names.len() > 0 {
        let rest = names.drop_last();
        let child = joined(dir, names.last());
        let entries = disk.listing(dir, names);
        let before = subdirectories(dir, entries.drop_last());
        assert(disk.well_listed(dir, rest));
        lemma_listing_adds_up(disk, dir, rest);
        assert(entries.drop_last() == disk.listing(dir, rest));
        // The last name makes a path longer than the directory's, within
        // the limit, so what lies under it counts.
        assert(disk.measure_entries(dir, names) == disk.measure_entries(dir, rest) + disk.measure(
            child,
        ));
        if entries.last().kind == EntryKind::Directory {
            assert(before.push(child).drop_last() == before);
            assert(disk.all_directories(before.push(child)));
        } else {
            assert(disk.directories(child) == 0);
        }
    }
}

/// A walk over directories that are there counts what lies below them: it
/// ends with the bytes counted before plus the bytes under the directory it
/// looks at and under those that wait, and leaves the disk as it was.
pub proof fn lemma_walk_counts_everything(disk: Disk, walk: WalkView, fuel: nat)
    requires
        disk.coherent(),
        disk.node(walk.current) matches Some(Node::Directory(_)),
        disk.all_directories(walk.pending),
        walk.total + disk.measure(walk.current) + disk.measure_all(walk.pending) <= u64::MAX,
        fuel >= 2 * (disk.directories(walk.current) + disk.directories_all(walk.pending)),
    ensures
        disk.run(StepView::prepare(walk), fuel) == Some(
            (
                StorageOutcomeView::Size(
                    (walk.total + disk.measure(walk.current) + disk.measure_all(
                        walk.pending,
                    )) as u64,
                ),
                disk,
            ),
        ),
    decreases disk.directories(walk.current) + disk.directories_all(walk.pending),
{
    reveal_with_fuel(Disk::run, 3);
    let names = disk.nodes[walk.current]->Directory_0;
    let entries = disk.listing(walk.current, names);
    let found = subdirectories(walk.current, entries);
    let waiting = walk.pending + found;
    let total = walk.total + files_total(entries);
    lemma_listing_adds_up(disk, walk.current, names);
    lemma_sums_over_joined_paths(disk, walk.pending, found);
    // Making a directory that is there changes nothing; listing it gives
    // its entries.
    let listed = StepView::Ask(
        SessionView::Measuring(walk),
        FsRequestView::ListEntries { path: walk.current },
    );
    assert(disk.run(listed, (fuel - 1) as nat) == disk.run(
        walk.after_entries(entries),
        (fuel - 2) as nat,
    ));
    if waiting.len() > 0 {
        let next = WalkView {
            current: waiting.last(),
            pending: waiting.drop_last(),
            total: total as u64,
        };
        assert(disk.all_directories(waiting));
        assert(disk.all_directories(next.pending));
        lemma_walk_counts_everything(disk, next, (fuel - 2) as nat);
    }
}

} // verus!
