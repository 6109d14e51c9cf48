//! A file system as the storage backend expects it to behave.
//!
//! [`Disk`] is a mathematical object: files and directories under paths,
//! answering every question truthfully and at once, with nobody else writing
//! to it. Against it the five operations have the meaning that the storage
//! capability promises. A real file system owes the backend no more than this
//! one does.

use crate::storage::paths::{
    joined, lemma_held_paths_are_plain, lemma_joined_splits_back, lemma_path_splits, name_of,
    parent_of, top, well_named,
};
use crate::storage::exchange::{
    DirEntryView, EntryKind, FsReplyView, FsRequestView, IoFault, StepView,
};
use crate::storage::storage_manager::StorageOutcomeView;
use vstd::prelude::*;

verus! {

/// What sits at a path.
pub enum Node {
    /// A file, with its content.
    File(Seq<u8>),
    /// A directory, with the names of its entries in the order in which it
    /// lists them.
    Directory(Seq<Seq<char>>),
    /// Something that is neither.
    Other,
}

impl Node {
    /// What kind of entry this is.
    pub open spec fn kind(self) -> EntryKind {
        match self {
            Node::File(_) => EntryKind::File,
            Node::Directory(_) => EntryKind::Directory,
            Node::Other => EntryKind::Other,
        }
    }

    /// Its length in bytes: that of the content for a file, zero for all else.
    pub open spec fn len(self) -> nat {
        match self {
            Node::File(data) => data.len(),
            _ => 0,
        }
    }
}

/// `names` without every occurrence of `name`.
pub open spec fn struck(names: Seq<Seq<char>>, name: Seq<char>) -> Seq<Seq<char>>
    decreases names.len(),
{
    if names.len() == 0 {
        names
    } else if names.last() == name {
        struck(names.drop_last(), name)
    } else {
        struck(names.drop_last(), name).push(names.last())
    }
}

/// A file system: what sits at each path, and the length beyond which it
/// takes no path.
pub struct Disk {
    pub nodes: Map<Seq<char>, Node>,
    pub limit: nat,
}

impl Disk {
    /// What sits at `path`, if anything.
    pub open spec fn node(self, path: Seq<char>) -> Option<Node> {
        if self.nodes.contains_key(path) {
            Some(self.nodes[path])
        } else {
            None
        }
    }

    /// This disk with `node` at `path`.
    pub open spec fn with(self, path: Seq<char>, node: Node) -> Disk {
        Disk { nodes: self.nodes.insert(path, node), limit: self.limit }
    }

    /// This disk with nothing at `path`.
    pub open spec fn without(self, path: Seq<char>) -> Disk {
        Disk { nodes: self.nodes.remove(path), limit: self.limit }
    }

    /// This disk with `path` listed in the directory that holds it.
    pub open spec fn listed(self, path: Seq<char>) -> Disk {
        match parent_of(path) {
            Some(dir) => match self.node(dir) {
                Some(Node::Directory(names)) => if names.contains(name_of(path)) {
                    self
                } else {
                    self.with(dir, Node::Directory(names.push(name_of(path))))
                },
                _ => self,
            },
            None => self,
        }
    }

    /// This disk with `path` no longer listed in the directory that holds it.
    pub open spec fn unlisted(self, path: Seq<char>) -> Disk {
        match parent_of(path) {
            Some(dir) => match self.node(dir) {
                Some(Node::Directory(names)) => self.with(
                    dir,
                    Node::Directory(struck(names, name_of(path))),
                ),
                _ => self,
            },
            None => self,
        }
    }

    /// This disk after the directory `path` and every directory above it were
    /// made where they were missing. `None` where that cannot be done:
    /// something other than a directory is in the way, the path is too long,
    /// or it names nothing in a directory.
    pub open spec fn make_dirs(self, path: Seq<char>) -> Option<Disk>
        decreases path.len(),
    {
        match self.node(path) {
            Some(Node::Directory(_)) => Some(self),
            Some(_) => None,
            None => if path.len() > self.limit {
                None
            } else {
                match parent_of(path) {
                    None => if top(path) {
                        Some(self.with(path, Node::Directory(Seq::empty())))
                    } else {
                        None
                    },
                    Some(dir) => if dir.len() < path.len() {
                        match self.make_dirs(dir) {
                            Some(disk) => Some(
                                disk.with(path, Node::Directory(Seq::empty())).listed(path),
                            ),
                            None => None,
                        }
                    } else {
                        None
                    },
                }
            },
        }
    }

    /// The entry under which the directory `dir` lists `name`.
    pub open spec fn entry(self, dir: Seq<char>, name: Seq<char>) -> DirEntryView {
        match self.node(joined(dir, name)) {
            Some(node) => DirEntryView { name, kind: node.kind(), len: node.len() as u64 },
            None => DirEntryView { name, kind: EntryKind::Other, len: 0 },
        }
    }

    /// The entries under which the directory `dir` lists `names`.
    pub open spec fn listing(self, dir: Seq<char>, names: Seq<Seq<char>>) -> Seq<DirEntryView> {
        names.map_values(|name: Seq<char>| self.entry(dir, name))
    }

    /// Why `data` cannot be written as a file at `path`, if it cannot: the
    /// directory that should hold it is missing, something other than a file
    /// is at the path, the path is too long, or the data is.
    pub open spec fn write_fault(self, path: Seq<char>, data: Seq<u8>) -> Option<IoFault> {
        if data.len() > u64::MAX {
            Some(IoFault::Other)
        } else {
            self.place_fault(path)
        }
    }

    /// Why no file can be at `path`, if none can.
    pub open spec fn place_fault(self, path: Seq<char>) -> Option<IoFault> {
        match parent_of(path) {
            None => Some(IoFault::Other),
            Some(dir) => match self.node(dir) {
                None => Some(IoFault::NotFound),
                Some(Node::Directory(_)) => match self.node(path) {
                    None => if path.len() > self.limit {
                        Some(IoFault::Other)
                    } else {
                        None
                    },
                    Some(Node::File(_)) => None,
                    Some(_) => Some(IoFault::Other),
                },
                Some(_) => Some(IoFault::Other),
            },
        }
    }

    /// The answer to `request`, and the disk after it.
    pub open spec fn serve(self, request: FsRequestView) -> (FsReplyView, Disk) {
        match request {
            FsRequestView::ReadFile { path } => match self.node(path) {
                Some(Node::File(data)) => (FsReplyView::Content(data), self),
                Some(_) => (FsReplyView::Failed(IoFault::Other), self),
                None => (FsReplyView::Failed(IoFault::NotFound), self),
            },
            FsRequestView::Inspect { path } => match self.node(path) {
                Some(node) => (FsReplyView::Meta { kind: node.kind(), len: node.len() as u64 }, self),
                None => (FsReplyView::Failed(IoFault::NotFound), self),
            },
            FsRequestView::ListEntries { path } => match self.node(path) {
                Some(Node::Directory(names)) => (
                    FsReplyView::Entries(self.listing(path, names)),
                    self,
                ),
                Some(_) => (FsReplyView::Failed(IoFault::Other), self),
                None => (FsReplyView::Failed(IoFault::NotFound), self),
            },
            FsRequestView::ListNames { path } => match self.node(path) {
                Some(Node::Directory(names)) => (FsReplyView::Names(names), self),
                Some(_) => (FsReplyView::Failed(IoFault::Other), self),
                None => (FsReplyView::Failed(IoFault::NotFound), self),
            },
            FsRequestView::CreateDirAll { path } => match self.make_dirs(path) {
                Some(disk) => (FsReplyView::Done, disk),
                None => (FsReplyView::Failed(IoFault::Other), self),
            },
            FsRequestView::CreateParentDirs { path } => match parent_of(path) {
                None => (FsReplyView::Done, self),
                Some(dir) => match self.make_dirs(dir) {
                    Some(disk) => (FsReplyView::Done, disk),
                    None => (FsReplyView::Failed(IoFault::Other), self),
                },
            },
            FsRequestView::WriteFile { path, data } => match self.write_fault(path, data) {
                None => (FsReplyView::Done, self.with(path, Node::File(data)).listed(path)),
                Some(fault) => (FsReplyView::Failed(fault), self),
            },
            FsRequestView::RemoveFile { path } => match self.node(path) {
                Some(Node::File(_)) => (FsReplyView::Done, self.without(path).unlisted(path)),
                Some(_) => (FsReplyView::Failed(IoFault::Other), self),
                None => (FsReplyView::Failed(IoFault::NotFound), self),
            },
        }
    }

    /// How an operation that stands at `step` ends on this disk, and the disk
    /// it leaves behind, where it ends within `fuel` questions.
    pub open spec fn run(self, step: StepView, fuel: nat) -> Option<(StorageOutcomeView, Disk)>
        decreases fuel,
    {
        match step {
            StepView::Done(outcome) => Some((outcome, self)),
            StepView::Ask(session, request) => if fuel == 0 {
                None
            } else {
                let (reply, disk) = self.serve(request);
                disk.run(session.after(reply), (fuel - 1) as nat)
            },
        }
    }
}

impl Disk {
    /// Whether what sits at `path` is sound: the path is within the limit and
    /// is a top path or held by a directory, a file's length can be counted
    /// in 64 bits, and a directory lists names of things that are there.
    pub open spec fn sound_at(self, path: Seq<char>) -> bool {
        &&& path.len() <= self.limit
        &&& (top(path) || parent_of(path) is Some)
        &&& match self.nodes[path] {
            Node::File(data) => data.len() <= u64::MAX,
            Node::Directory(names) => self.well_listed(path, names),
            Node::Other => true,
        }
    }

    /// Whether `names` can be the entries of the directory `dir`: each is a
    /// name, and something sits at the path it makes.
    pub open spec fn well_listed(self, dir: Seq<char>, names: Seq<Seq<char>>) -> bool {
        forall|i: int|
            0 <= i < names.len() ==> well_named(#[trigger] names[i]) && self.nodes.contains_key(
                joined(dir, names[i]),
            )
    }

    /// Whether the disk hangs together: what sits at each of its paths is
    /// sound.
    pub open spec fn coherent(self) -> bool {
        forall|path: Seq<char>| #[trigger] self.nodes.contains_key(path) ==> self.sound_at(path)
    }
}

/// Striking a name from a list leaves names of the list, and none equal to
/// the one struck.
pub proof fn lemma_struck_names(names: Seq<Seq<char>>, name: Seq<char>)
    ensures
        forall|i: int|
            0 <= i < struck(names, name).len() ==> (#[trigger] struck(names, name)[i]) != name
                && names.contains(struck(names, name)[i]),
    decreases names.len(),
{
    if names.len() > 0 {
        let front = names.drop_last();
        lemma_struck_names(front, name);
        assert forall|i: int| 0 <= i < struck(names, name).len() implies (#[trigger] struck(
            names,
            name,
        )[i]) != name && names.contains(struck(names, name)[i]) by {
            if i < struck(front, name).len() {
                let kept = struck(front, name)[i];
                assert(front.contains(kept));
                let at = choose|at: int| 0 <= at < front.len() && front[at] == kept;
                assert(names[at] == kept);
            } else {
                assert(names[names.len() - 1] == names.last());
            }
        }
    }
}

/// Listing a path, or taking it off the list, touches only the directory
/// that holds it.
pub proof fn lemma_listing_keeps_other_paths(disk: Disk, path: Seq<char>, other: Seq<char>)
    requires
        parent_of(path) != Some(other),
    ensures
        disk.listed(path).node(other) == disk.node(other),
        disk.unlisted(path).node(other) == disk.node(other),
{
}

/// A disk with nothing on it is coherent.
pub proof fn lemma_empty_disk_is_coherent(limit: nat)
    ensures
        (Disk { nodes: Map::empty(), limit }).coherent(),
{
}

/// Putting a file, or an empty directory, where a directory can hold it, and
/// listing it there, keeps a coherent disk coherent.
pub proof fn lemma_placing_keeps_coherence(disk: Disk, path: Seq<char>, node: Node)
    requires
        disk.coherent(),
        path.len() <= disk.limit,
        parent_of(path) matches Some(dir) && disk.node(dir) matches Some(Node::Directory(_)),
        match node {
            Node::File(data) => data.len() <= u64::MAX,
            Node::Directory(names) => names.len() == 0,
            Node::Other => true,
        },
    ensures
        disk.with(path, node).listed(path).coherent(),
{
    lemma_path_splits(path);
    let dir = parent_of(path).unwrap();
    let name = name_of(path);
    let names = disk.nodes[dir]->Directory_0;
    let placed = disk.with(path, node);
    let after = placed.listed(path);
    assert(disk.nodes.contains_key(dir));
    assert(placed.node(dir) == Some(Node::Directory(names)));
    assert forall|other: Seq<char>| #[trigger] after.nodes.contains_key(other) implies after.sound_at(
        other,
    ) by {
        if other == path {
            assert(after.nodes[other] == node);
        } else {
            assert(disk.nodes.contains_key(other));
            assert(disk.sound_at(other));
            if let Node::Directory(listed) = after.nodes[other] {
                let before = disk.nodes[other]->Directory_0;
                assert forall|i: int| 0 <= i < listed.len() implies well_named(#[trigger] listed[i])
                    && after.nodes.contains_key(joined(other, listed[i])) by {
                    if i < before.len() {
                        assert(listed[i] == before[i]);
                        assert(disk.nodes.contains_key(joined(other, before[i])));
                    } else {
                        assert(other == dir && listed[i] == name);
                    }
                }
            }
        }
    }
}

/// Making directories keeps a coherent disk coherent, ends with a directory
/// at the path, and loses nothing: what was on the disk is still there, and
/// every file has the content it had.
pub proof fn lemma_making_directories(disk: Disk, path: Seq<char>)
    requires
        disk.coherent(),
    ensures
        disk.make_dirs(path) matches Some(made) ==> {
            &&& made.coherent()
            &&& made.limit == disk.limit
            &&& made.node(path) is Some
            &&& made.node(path).unwrap() is Directory
            &&& forall|other: Seq<char>| #[trigger]
                disk.nodes.contains_key(other) ==> made.nodes.contains_key(other) && (
                disk.nodes[other] is File ==> made.nodes[other] == disk.nodes[other])
        },
    decreases path.len(),
{
    if disk.node(path) is None && path.len() <= disk.limit {
        match parent_of(path) {
            None => {
                if top(path) {
                    let made = disk.with(path, Node::Directory(Seq::empty()));
                    assert forall|other: Seq<char>| #[trigger]
                        made.nodes.contains_key(other) implies made.sound_at(other) by {
                        if other != path {
                            assert(disk.nodes.contains_key(other));
                            assert(disk.sound_at(other));
                        }
                    }
                }
            },
            Some(dir) => {
                lemma_path_splits(path);
                lemma_making_directories(disk, dir);
                if let Some(below) = disk.make_dirs(dir) {
                    let node = Node::Directory(Seq::empty());
                    lemma_placing_keeps_coherence(below, path, node);
                    lemma_listing_keeps_other_paths(below.with(path, node), path, path);
                    let made = below.with(path, node).listed(path);
                    assert(disk.make_dirs(path) == Some(made));
                    assert forall|other: Seq<char>| #[trigger]
                        disk.nodes.contains_key(other) implies made.nodes.contains_key(other) && (
                    disk.nodes[other] is File ==> made.nodes[other] == disk.nodes[other]) by {
                        assert(below.nodes.contains_key(other));
                        assert(other != path);
                    }
                }
            },
        }
    }
}

/// Removing a file, and taking it off the list of the directory that holds
/// it, keeps a coherent disk coherent.
pub proof fn lemma_removing_keeps_coherence(disk: Disk, path: Seq<char>)
    requires
        disk.coherent(),
        disk.node(path) matches Some(Node::File(_)),
    ensures
        disk.without(path).unlisted(path).coherent(),
{
    lemma_path_splits(path);
    let name = name_of(path);
    let removed = disk.without(path);
    let after = removed.unlisted(path);
    assert forall|other: Seq<char>| #[trigger] after.nodes.contains_key(other) implies after.sound_at(
        other,
    ) by {
        assert(other != path);
        assert(disk.nodes.contains_key(other));
        assert(disk.sound_at(other));
        if let Node::Directory(listed) = after.nodes[other] {
            let before = disk.nodes[other]->Directory_0;
            lemma_held_paths_are_plain(other);
            lemma_struck_names(before, name);
            assert forall|i: int| 0 <= i < listed.len() implies well_named(#[trigger] listed[i])
                && after.nodes.contains_key(joined(other, listed[i])) by {
                let kept = listed[i];
                assert(before.contains(kept));
                let at = choose|at: int| 0 <= at < before.len() && before[at] == kept;
                assert(well_named(before[at]));
                assert(disk.nodes.contains_key(joined(other, before[at])));
                lemma_joined_splits_back(other, kept);
                if joined(other, kept) == path {
                    assert(parent_of(path) == Some(other));
                    assert(listed == struck(before, name));
                    assert(kept != name);
                }
            }
        }
    }
}

/// Whatever the disk is asked, it stays coherent.
pub proof fn lemma_answers_keep_the_disk_coherent(disk: Disk, request: FsRequestView)
    requires
        disk.coherent(),
    ensures
        disk.serve(request).1.coherent(),
        disk.serve(request).1.limit == disk.limit,
{
    match request {
        FsRequestView::CreateDirAll { path } => {
            lemma_making_directories(disk, path);
        },
        FsRequestView::CreateParentDirs { path } => {
            if let Some(dir) = parent_of(path) {
                lemma_making_directories(disk, dir);
            }
        },
        FsRequestView::WriteFile { path, data } => {
            if disk.write_fault(path, data) is None {
                if disk.nodes.contains_key(path) {
                    assert(disk.sound_at(path));
                }
                lemma_placing_keeps_coherence(disk, path, Node::File(data));
            }
        },
        FsRequestView::RemoveFile { path } => {
            if let Some(Node::File(_)) = disk.node(path) {
                lemma_removing_keeps_coherence(disk, path);
            }
        },
        _ => {},
    }
}

/// However an operation goes on a coherent disk, the disk it leaves behind
/// is coherent: so the laws that ask for a coherent disk hold after any
/// history of operations on a disk that began empty.
pub proof fn lemma_operations_keep_the_disk_coherent(disk: Disk, step: StepView, fuel: nat)
    requires
        disk.coherent(),
    ensures
        disk.run(step, fuel) matches Some((_, after)) ==> after.coherent() && after.limit
            == disk.limit,
    decreases fuel,
{
    if let StepView::Ask(session, request) = step {
        if fuel > 0 {
            lemma_answers_keep_the_disk_coherent(disk, request);
            let (reply, next) = disk.serve(request);
            lemma_operations_keep_the_disk_coherent(next, session.after(reply), (fuel - 1) as nat);
        }
    }
}

} // verus!
