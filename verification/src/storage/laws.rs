//! What the five operations come to on a file system that behaves: what was
//! put is got, what was never put or was deleted is not there, and a size is
//! the sum of what lies below.
//!
//! Each law speaks of the place at which content is kept. A backend opens
//! every operation on the place that it makes of the storage path, and makes
//! the same place of the same path each time, so each law holds of every
//! backend and of the entry point in front of it.

use crate::storage::disk::{
    lemma_listing_keeps_other_paths, lemma_making_directories, Disk, Node,
};
use crate::storage::measure::lemma_walk_counts_everything;
use crate::storage::paths::{lemma_parent_is_shorter, lemma_path_splits, name_of, parent_of};
use crate::storage::exchange::{FsReplyView, FsRequestView, StepView, WalkView};
use crate::storage::storage_manager::{
    StorageFailure, StorageOpView, StorageOutcomeView, StorageTrait,
};
use vstd::prelude::*;

verus! {

/// What was put is what is got: where `Put` of `data` at a place ends as
/// `Stored`, a `Get` of the same place on the disk it leaves gives exactly
/// `data`, be it empty, and changes nothing.
pub proof fn lemma_put_then_get(disk: Disk, place: Seq<char>, data: Seq<u8>)
    ensures
        disk.run(StepView::opening(StorageOpView::Put { path: place, data }), 2) matches Some((outcome, after))
            && (outcome == StorageOutcomeView::Stored ==> after.run(
            StepView::opening(StorageOpView::Get { path: place }),
            1,
        ) == Some((StorageOutcomeView::Content(Some(data)), after))),
{
    reveal_with_fuel(Disk::run, 3);
    lemma_parent_is_shorter(place);
    let (reply, prepared) = disk.serve(FsRequestView::CreateParentDirs { path: place });
    if reply == FsReplyView::Done {
        let (written, after) = prepared.serve(FsRequestView::WriteFile { path: place, data });
        if written == FsReplyView::Done {
            lemma_listing_keeps_other_paths(prepared.with(place, Node::File(data)), place, place);
        }
    }
}

/// The last write wins: of two `Put`s at one place that both end as
/// `Stored`, a `Get` finds the data of the second.
pub proof fn lemma_put_replaces(
    disk: Disk,
    place: Seq<char>,
    first: Seq<u8>,
    second: Seq<u8>,
)
    ensures
        disk.run(StepView::opening(StorageOpView::Put { path: place, data: first }), 2) matches Some(
            (_, between),
        ) && between.run(StepView::opening(StorageOpView::Put { path: place, data: second }), 2)
            matches Some((outcome, after)) && (outcome == StorageOutcomeView::Stored ==> after.run(
            StepView::opening(StorageOpView::Get { path: place }),
            1,
        ) == Some((StorageOutcomeView::Content(Some(second)), after))),
{
    lemma_put_then_get(disk, place, first);
    let between = disk.run(StepView::opening(StorageOpView::Put { path: place, data: first }), 2).unwrap().1;
    lemma_put_then_get(between, place, second);
}

/// `Put` makes the directory that holds the file where it is missing, and
/// touches no other file: on a coherent disk, once `Put` ended as `Stored`
/// the directory above the file is there and lists the file's name, and
/// whether it did or not, every file at another place has the content it
/// had.
pub proof fn lemma_put_makes_room_and_keeps_other_files(
    disk: Disk,
    place: Seq<char>,
    data: Seq<u8>,
)
    requires
        disk.coherent(),
    ensures
        disk.run(StepView::opening(StorageOpView::Put { path: place, data }), 2) matches Some((outcome, after))
            && {
            &&& outcome == StorageOutcomeView::Stored ==> {
                &&& parent_of(place) is Some
                &&& after.node(parent_of(place).unwrap()) is Some
                &&& after.node(parent_of(place).unwrap()).unwrap() matches Node::Directory(names)
                &&& names.contains(name_of(place))
            }
            &&& forall|other: Seq<char>|
                other != place && (#[trigger] disk.node(other)) is Some
                    && disk.node(other).unwrap() is File ==> after.node(other) == disk.node(other)
        },
{
    reveal_with_fuel(Disk::run, 3);
    lemma_path_splits(place);
    let (reply, prepared) = disk.serve(FsRequestView::CreateParentDirs { path: place });
    if let Some(dir) = parent_of(place) {
        lemma_making_directories(disk, dir);
    }
    assert forall|other: Seq<char>|
        (#[trigger] disk.node(other)) is Some && disk.node(other).unwrap() is File implies prepared.node(
        other,
    ) == disk.node(other) by {
    }
    if reply == FsReplyView::Done {
        let (written, after) = prepared.serve(FsRequestView::WriteFile { path: place, data });
        if written == FsReplyView::Done {
            let placed = prepared.with(place, Node::File(data));
            let name = name_of(place);
            let names = placed.nodes[parent_of(place).unwrap()]->Directory_0;
            assert(names.push(name)[names.len() as int] == name);
            assert forall|other: Seq<char>|
                other != place && (#[trigger] disk.node(other)) is Some && disk.node(
                    other,
                ).unwrap() is File implies after.node(other) == disk.node(other) by {
                lemma_listing_keeps_other_paths(placed, place, other);
            }
        }
    }
}

/// A place at which nothing was ever put holds nothing: `Get` gives `None`,
/// which is no failure, and changes nothing.
pub proof fn lemma_get_of_unwritten_path(disk: Disk, place: Seq<char>)
    requires
        disk.node(place) is None,
    ensures
        disk.run(StepView::opening(StorageOpView::Get { path: place }), 1) == Some(
            (StorageOutcomeView::Content(None), disk),
        ),
{
    reveal_with_fuel(Disk::run, 2);
}

/// What was deleted is gone: where `Delete` at a place ends as `Deleted`, a
/// `Get` of the same place on the disk it leaves gives `None`. And `Delete`
/// at a place that holds nothing fails with `NotFound`.
pub proof fn lemma_delete_then_get(disk: Disk, place: Seq<char>)
    ensures
        disk.run(StepView::opening(StorageOpView::Delete { path: place }), 1) matches Some((outcome, after))
            && (outcome == StorageOutcomeView::Deleted ==> after.run(
            StepView::opening(StorageOpView::Get { path: place }),
            1,
        ) == Some((StorageOutcomeView::Content(None), after))),
        disk.node(place) is None ==> disk.run(
            StepView::opening(StorageOpView::Delete { path: place }),
            1,
        ) == Some((StorageOutcomeView::Failed(StorageFailure::NotFound), disk)),
{
    reveal_with_fuel(Disk::run, 2);
    lemma_parent_is_shorter(place);
    let (reply, after) = disk.serve(FsRequestView::RemoveFile { path: place });
    if reply == FsReplyView::Done {
        lemma_listing_keeps_other_paths(disk.without(place), place, place);
    }
}

/// `GetFiles` gives the names that the directory itself lists, and so no
/// name from further down; for a place that is no directory it gives `None`.
/// It changes nothing.
pub proof fn lemma_get_files_lists_the_directory(disk: Disk, place: Seq<char>)
    ensures
        disk.run(StepView::opening(StorageOpView::GetFiles { path: place }), 1) == Some(
            (
                StorageOutcomeView::Files(
                    match disk.node(place) {
                        Some(Node::Directory(names)) => Some(names),
                        _ => None,
                    },
                ),
                disk,
            ),
        ),
{
    reveal_with_fuel(Disk::run, 2);
}

/// The size of a directory is the sum of the sizes of the files at any depth
/// below it: `Size` of a directory ends with the bytes under it, provided
/// they can be counted in 64 bits, and changes nothing. `Size` of a file
/// ends with the file's length.
pub proof fn lemma_size_is_the_sum_below(disk: Disk, place: Seq<char>, fuel: nat)
    requires
        disk.coherent(),
        disk.node(place) is Some,
        disk.node(place) != Some(Node::Other),
        disk.measure(place) <= u64::MAX,
        fuel >= 1 + 2 * disk.directories(place),
    ensures
        disk.run(StepView::opening(StorageOpView::Size { path: place }), fuel) == Some(
            (StorageOutcomeView::Size(disk.measure(place) as u64), disk),
        ),
{
    reveal_with_fuel(Disk::run, 2);
    match disk.nodes[place] {
        Node::Directory(_) => {
            let walk = WalkView::starting_at(place);
            lemma_walk_counts_everything(disk, walk, (fuel - 1) as nat);
        },
        _ => {},
    }
}

/// The size of a directory that is not there is zero, and no failure: `Size`
/// makes the directory, finds it empty and ends with `0`, wherever the
/// directory can be made.
pub proof fn lemma_size_of_missing_directory(disk: Disk, place: Seq<char>)
    requires
        disk.node(place) is None,
        disk.make_dirs(place) is Some,
    ensures
        disk.run(StepView::opening(StorageOpView::Size { path: place }), 3) == Some(
            (StorageOutcomeView::Size(0), disk.make_dirs(place).unwrap()),
        ),
{
    reveal_with_fuel(Disk::run, 4);
    let made = disk.make_dirs(place).unwrap();
    lemma_parent_is_shorter(place);
    assert(made.node(place) == Some(Node::Directory(Seq::empty()))) by {
        if let Some(dir) = parent_of(place) {
            let below = disk.make_dirs(dir).unwrap();
            lemma_listing_keeps_other_paths(
                below.with(place, Node::Directory(Seq::empty())),
                place,
                place,
            );
        }
    }
}

/// The round trip through any backend: where a `Put` of `data` under a
/// storage path ends as `Stored`, a `Get` of that storage path through the
/// same backend gives exactly `data`.
pub proof fn lemma_round_trip_through_a_backend<S: StorageTrait>(
    backend: S,
    disk: Disk,
    path: Seq<char>,
    data: Seq<u8>,
)
    ensures
        disk.run(StepView::opening((StorageOpView::Put { path, data }).placed(backend)), 2)
            matches Some((outcome, after)) && (outcome == StorageOutcomeView::Stored ==> after.run(
            StepView::opening((StorageOpView::Get { path }).placed(backend)),
            1,
        ) == Some((StorageOutcomeView::Content(Some(data)), after))),
{
    lemma_put_then_get(disk, backend.place(path), data);
}

} // verus!
