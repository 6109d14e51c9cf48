//! The exchange between a storage backend and the file system below it.
//!
//! A backend never touches the file system itself. For each operation it
//! says which question to put to the file system next, and takes the answer;
//! the caller puts the questions. A question is an [`FsRequest`], an answer an
//! [`FsReply`], and what is remembered between the two a [`Session`].

use crate::storage::paths::{join, joined};
use crate::storage::storage_manager::{
    bytes_from_vec, StorageFailure, StorageOpView, StorageOutcome, StorageOutcomeView,
};
use vstd::prelude::*;

verus! {

/// What a directory entry is.
#[derive(Debug, Clone, Copy, PartialEq, Eq, Structural)]
pub enum EntryKind {
    File,
    Directory,
    /// Neither: a link, a device, a socket.
    Other,
}

/// Why the file system did not do what it was asked.
#[derive(Debug, Clone, Copy, PartialEq, Eq, Structural)]
pub enum IoFault {
    NotFound,
    PermissionDenied,
    Other,
}

impl StorageFailure {
    /// The failure that a fault of the file system stands for.
    pub open spec fn of_fault(fault: IoFault) -> StorageFailure {
        match fault {
            IoFault::NotFound => StorageFailure::NotFound,
            IoFault::PermissionDenied => StorageFailure::PermissionDenied,
            IoFault::Other => StorageFailure::IoFailure,
        }
    }

    /// The failure that a fault of the file system stands for.
    pub fn from_fault(fault: IoFault) -> (r: Self)
        ensures
            r == Self::of_fault(fault),
    {
        match fault {
            IoFault::NotFound => StorageFailure::NotFound,
            IoFault::PermissionDenied => StorageFailure::PermissionDenied,
            IoFault::Other => StorageFailure::IoFailure,
        }
    }
}

/// One entry of a directory: its name, what it is, and for a file its length
/// in bytes.
#[derive(Debug)]
pub struct DirEntry {
    pub name: String,
    pub kind: EntryKind,
    pub len: u64,
}

/// What a [`DirEntry`] holds, as mathematical values.
pub struct DirEntryView {
    pub name: Seq<char>,
    pub kind: EntryKind,
    pub len: u64,
}

impl View for DirEntry {
    type V = DirEntryView;

    open spec fn view(&self) -> DirEntryView {
        DirEntryView { name: self.name@, kind: self.kind, len: self.len }
    }
}

impl DeepView for DirEntry {
    type V = DirEntryView;

    open spec fn deep_view(&self) -> DirEntryView {
        self@
    }
}

/// A question to the file system. Every path in one is already resolved
/// against the backend's root.
#[derive(Debug)]
pub enum FsRequest {
    /// Read the whole file.
    ReadFile { path: String },
    /// Make the directory that holds `path`, and every directory above it,
    /// where they are missing. Nothing to do where `path` has no parent.
    CreateParentDirs { path: String },
    /// Write `data` as the whole content of the file, making it or replacing it.
    WriteFile { path: String, data: Vec<u8> },
    /// Remove the file.
    RemoveFile { path: String },
    /// Say what is at the path.
    Inspect { path: String },
    /// Make the directory, and every directory above it, where they are missing.
    CreateDirAll { path: String },
    /// List the directory's entries: name, kind and length of each.
    ListEntries { path: String },
    /// List the names of the directory's entries.
    ListNames { path: String },
}

/// What an [`FsRequest`] holds, as mathematical values.
pub enum FsRequestView {
    ReadFile { path: Seq<char> },
    CreateParentDirs { path: Seq<char> },
    WriteFile { path: Seq<char>, data: Seq<u8> },
    RemoveFile { path: Seq<char> },
    Inspect { path: Seq<char> },
    CreateDirAll { path: Seq<char> },
    ListEntries { path: Seq<char> },
    ListNames { path: Seq<char> },
}

impl View for FsRequest {
    type V = FsRequestView;

    open spec fn view(&self) -> FsRequestView {
        match self {
            FsRequest::ReadFile { path } => FsRequestView::ReadFile { path: path@ },
            FsRequest::CreateParentDirs { path } => FsRequestView::CreateParentDirs { path: path@ },
            FsRequest::WriteFile { path, data } => FsRequestView::WriteFile {
                path: path@,
                data: data@,
            },
            FsRequest::RemoveFile { path } => FsRequestView::RemoveFile { path: path@ },
            FsRequest::Inspect { path } => FsRequestView::Inspect { path: path@ },
            FsRequest::CreateDirAll { path } => FsRequestView::CreateDirAll { path: path@ },
            FsRequest::ListEntries { path } => FsRequestView::ListEntries { path: path@ },
            FsRequest::ListNames { path } => FsRequestView::ListNames { path: path@ },
        }
    }
}

/// The file system's answer to a question.
#[derive(Debug)]
pub enum FsReply {
    /// To `ReadFile`: the file's content.
    Content(Vec<u8>),
    /// To `CreateParentDirs`, `WriteFile`, `RemoveFile` and `CreateDirAll`: done.
    Done,
    /// To `Inspect`: what is there, and its length in bytes.
    Meta { kind: EntryKind, len: u64 },
    /// To `ListEntries`: the entries.
    Entries(Vec<DirEntry>),
    /// To `ListNames`: the names.
    Names(Vec<String>),
    /// To any: it could not be done.
    Failed(IoFault),
}

/// What an [`FsReply`] holds, as mathematical values.
pub enum FsReplyView {
    Content(Seq<u8>),
    Done,
    Meta { kind: EntryKind, len: u64 },
    Entries(Seq<DirEntryView>),
    Names(Seq<Seq<char>>),
    Failed(IoFault),
}

impl View for FsReply {
    type V = FsReplyView;

    open spec fn view(&self) -> FsReplyView {
        match self {
            FsReply::Content(data) => FsReplyView::Content(data@),
            FsReply::Done => FsReplyView::Done,
            FsReply::Meta { kind, len } => FsReplyView::Meta { kind: *kind, len: *len },
            FsReply::Entries(entries) => FsReplyView::Entries(entries.deep_view()),
            FsReply::Names(names) => FsReplyView::Names(names.deep_view()),
            FsReply::Failed(fault) => FsReplyView::Failed(*fault),
        }
    }
}

/// The sum of the lengths of the files among `entries`.
pub open spec fn files_total(entries: Seq<DirEntryView>) -> nat
    decreases entries.len(),
{
    if entries.len() == 0 {
        0
    } else {
        files_total(entries.drop_last()) + if entries.last().kind == EntryKind::File {
            entries.last().len as nat
        } else {
            0
        }
    }
}

/// The paths of the directories among the entries of `dir`, in their order.
pub open spec fn subdirectories(dir: Seq<char>, entries: Seq<DirEntryView>) -> Seq<Seq<char>>
    decreases entries.len(),
{
    if entries.len() == 0 {
        Seq::empty()
    } else if entries.last().kind == EntryKind::Directory {
        subdirectories(dir, entries.drop_last()).push(joined(dir, entries.last().name))
    } else {
        subdirectories(dir, entries.drop_last())
    }
}

/// A measurement under way: the directory being looked at, those that still
/// wait, and the bytes counted so far.
#[derive(Debug)]
pub struct Walk {
    pub current: String,
    pub pending: Vec<String>,
    pub total: u64,
}

/// What a [`Walk`] holds, as mathematical values.
pub struct WalkView {
    pub current: Seq<char>,
    pub pending: Seq<Seq<char>>,
    pub total: u64,
}

impl View for Walk {
    type V = WalkView;

    open spec fn view(&self) -> WalkView {
        WalkView {
            current: self.current@,
            pending: self.pending.deep_view(),
            total: self.total,
        }
    }
}

/// What the backend remembers while a question is with the file system.
#[derive(Debug)]
pub enum Session {
    /// `Get`: the file is being read.
    Reading,
    /// `Put`: the directories above the file are being made; the write comes
    /// next.
    MakingRoom { path: String, data: Vec<u8> },
    /// `Put`: the file is being written.
    Writing,
    /// `Delete`: the file is being removed.
    Removing,
    /// `GetFiles`: the directory is being listed.
    Listing,
    /// `Size`: the path is being inspected.
    Inspecting { path: String },
    /// `Size`: the walk's current directory is being made.
    Preparing(Walk),
    /// `Size`: the walk's current directory is being listed.
    Measuring(Walk),
}

/// What a [`Session`] holds, as mathematical values.
pub enum SessionView {
    Reading,
    MakingRoom { path: Seq<char>, data: Seq<u8> },
    Writing,
    Removing,
    Listing,
    Inspecting { path: Seq<char> },
    Preparing(WalkView),
    Measuring(WalkView),
}

impl View for Session {
    type V = SessionView;

    open spec fn view(&self) -> SessionView {
        match self {
            Session::Reading => SessionView::Reading,
            Session::MakingRoom { path, data } => SessionView::MakingRoom {
                path: path@,
                data: data@,
            },
            Session::Writing => SessionView::Writing,
            Session::Removing => SessionView::Removing,
            Session::Listing => SessionView::Listing,
            Session::Inspecting { path } => SessionView::Inspecting { path: path@ },
            Session::Preparing(walk) => SessionView::Preparing(walk@),
            Session::Measuring(walk) => SessionView::Measuring(walk@),
        }
    }
}

/// What comes next in an operation: a question for the file system, with what
/// the backend remembers meanwhile, or the operation's end.
#[derive(Debug)]
pub enum Step {
    Ask(Session, FsRequest),
    Done(StorageOutcome),
}

/// What a [`Step`] holds, as mathematical values.
pub enum StepView {
    Ask(SessionView, FsRequestView),
    Done(StorageOutcomeView),
}

impl View for Step {
    type V = StepView;

    open spec fn view(&self) -> StepView {
        match self {
            Step::Ask(session, request) => StepView::Ask(session@, request@),
            Step::Done(outcome) => StepView::Done(outcome@),
        }
    }
}

impl StepView {
    /// The step that ends an operation in `failure`.
    pub open spec fn failed(failure: StorageFailure) -> StepView {
        StepView::Done(StorageOutcomeView::Failed(failure))
    }

    /// The step that makes `walk`'s current directory, the first of the two
    /// questions asked of every directory measured.
    pub open spec fn prepare(walk: WalkView) -> StepView {
        StepView::Ask(
            SessionView::Preparing(walk),
            FsRequestView::CreateDirAll { path: walk.current },
        )
    }
}

impl WalkView {
    /// The walk that measures the directory `path` and has counted nothing yet.
    pub open spec fn starting_at(path: Seq<char>) -> WalkView {
        WalkView { current: path, pending: Seq::empty(), total: 0 }
    }

    /// What comes after the entries of the current directory came in. Its
    /// files are counted and its directories wait behind those that waited
    /// already; the one that came last is looked at next. With none left the
    /// count is the result. A count beyond 64 bits ends the walk in
    /// `IoFailure`.
    pub open spec fn after_entries(self, entries: Seq<DirEntryView>) -> StepView {
        let total = self.total + files_total(entries);
        let waiting = self.pending + subdirectories(self.current, entries);
        if total > u64::MAX {
            StepView::failed(StorageFailure::IoFailure)
        } else if waiting.len() == 0 {
            StepView::Done(StorageOutcomeView::Size(total as u64))
        } else {
            StepView::prepare(
                WalkView {
                    current: waiting.last(),
                    pending: waiting.drop_last(),
                    total: total as u64,
                },
            )
        }
    }
}

impl SessionView {
    /// What comes after `reply` in this session. A fault ends the operation
    /// in the failure it stands for, but for two operations: `Get` reports a
    /// missing file as no content, and `GetFiles` reports a directory that
    /// cannot be listed as none. An answer to another question than the one
    /// asked ends the operation in `IoFailure`.
    pub open spec fn after(self, reply: FsReplyView) -> StepView {
        match (self, reply) {
            (SessionView::Reading, FsReplyView::Content(data)) => StepView::Done(
                StorageOutcomeView::Content(Some(data)),
            ),
            (SessionView::Reading, FsReplyView::Failed(IoFault::NotFound)) => StepView::Done(
                StorageOutcomeView::Content(None),
            ),
            (SessionView::MakingRoom { path, data }, FsReplyView::Done) => StepView::Ask(
                SessionView::Writing,
                FsRequestView::WriteFile { path, data },
            ),
            (SessionView::Writing, FsReplyView::Done) => StepView::Done(StorageOutcomeView::Stored),
            (SessionView::Removing, FsReplyView::Done) => StepView::Done(
                StorageOutcomeView::Deleted,
            ),
            (SessionView::Listing, FsReplyView::Names(names)) => StepView::Done(
                StorageOutcomeView::Files(Some(names)),
            ),
            (SessionView::Listing, FsReplyView::Failed(_)) => StepView::Done(
                StorageOutcomeView::Files(None),
            ),
            (SessionView::Inspecting { path }, FsReplyView::Meta { kind, len }) => match kind {
                EntryKind::File => StepView::Done(StorageOutcomeView::Size(len)),
                EntryKind::Directory => StepView::prepare(WalkView::starting_at(path)),
                EntryKind::Other => StepView::failed(StorageFailure::IoFailure),
            },
            (SessionView::Inspecting { path }, FsReplyView::Failed(IoFault::NotFound)) => StepView::prepare(
                WalkView::starting_at(path),
            ),
            (SessionView::Preparing(walk), FsReplyView::Done) => StepView::Ask(
                SessionView::Measuring(walk),
                FsRequestView::ListEntries { path: walk.current },
            ),
            (SessionView::Measuring(walk), FsReplyView::Entries(entries)) => walk.after_entries(
                entries,
            ),
            (_, FsReplyView::Failed(fault)) => StepView::failed(StorageFailure::of_fault(fault)),
            _ => StepView::failed(StorageFailure::IoFailure),
        }
    }
}

/// The files among the first entries never weigh more than those among all.
pub proof fn lemma_files_total_grows(entries: Seq<DirEntryView>, n: int)
    requires
        0 <= n <= entries.len(),
    ensures
        files_total(entries.take(n)) <= files_total(entries),
    decreases entries.len(),
{
    if n < entries.len() {
        lemma_files_total_grows(entries.drop_last(), n);
        assert(entries.drop_last().take(n) == entries.take(n));
    } else {
        assert(entries.take(n) == entries);
    }
}

impl Walk {
    /// Takes in the entries of the current directory and says what comes next.
    pub fn absorb(self, entries: Vec<DirEntry>) -> (r: Step)
        ensures
            r@ == self@.after_entries(entries.deep_view()),
    {
        let ghost origin = self@;
        let Walk { current, pending, total } = self;
        let mut pending = pending;
        let mut total = total;
        let ghost views = entries.deep_view();
        let ghost waited = pending.deep_view();
        let ghost counted = total;
        let mut i: usize = 0;
        while i < entries.len()
            invariant
                i <= entries.len(),
                views == entries.deep_view(),
                origin == self@,
                origin == (WalkView { current: current@, pending: waited, total: counted }),
                total == counted + files_total(views.take(i as int)),
                pending.deep_view() == waited + subdirectories(current@, views.take(i as int)),
            decreases entries.len() - i,
        {
            let entry = &entries[i];
            let ghost seen = views.take(i as int + 1);
            let ghost so_far = pending.deep_view();
            proof {
                assert(seen.drop_last() == views.take(i as int));
            }
            match entry.kind {
                EntryKind::File => match total.checked_add(entry.len) {
                    Some(sum) => {
                        total = sum;
                    },
                    None => {
                        proof {
                            lemma_files_total_grows(views, i as int + 1);
                            assert(files_total(seen) == files_total(views.take(i as int))
                                + entry.len);
                        }
                        return Step::Done(StorageOutcome::Failed(StorageFailure::IoFailure));
                    },
                },
                EntryKind::Directory => {
                    let child = join(current.as_str(), entry.name.as_str());
                    pending.push(child);
                    assert(pending.deep_view() == so_far.push(child@));
                },
                EntryKind::Other => {},
            }
            i += 1;
        }
        assert(views.take(i as int) == views);
        let ghost waiting = pending.deep_view();
        match pending.pop() {
            Some(next) => {
                assert(pending.deep_view() == waiting.drop_last());
                let path = next.clone();
                Step::Ask(
                    Session::Preparing(Walk { current: next, pending, total }),
                    FsRequest::CreateDirAll { path },
                )
            },
            None => Step::Done(StorageOutcome::Size(total)),
        }
    }

    /// The walk that measures the directory `path` and has counted nothing yet.
    pub fn starting_at(path: String) -> (r: Walk)
        ensures
            r@ == WalkView::starting_at(path@),
    {
        let r = Walk { current: path, pending: Vec::new(), total: 0 };
        assert(r.pending.deep_view() == Seq::<Seq<char>>::empty());
        r
    }

    fn prepare(self) -> (r: Step)
        ensures
            r@ == StepView::prepare(self@),
    {
        let path = self.current.clone();
        Step::Ask(Session::Preparing(self), FsRequest::CreateDirAll { path })
    }
}

impl Session {
    /// Takes the file system's answer and says what comes next.
    pub fn advance(self, reply: FsReply) -> (r: Step)
        ensures
            r@ == self@.after(reply@),
    {
        match (self, reply) {
            (Session::Reading, FsReply::Content(data)) => Step::Done(
                StorageOutcome::Content(Some(bytes_from_vec(data))),
            ),
            (Session::Reading, FsReply::Failed(IoFault::NotFound)) => Step::Done(
                StorageOutcome::Content(None),
            ),
            (Session::MakingRoom { path, data }, FsReply::Done) => Step::Ask(
                Session::Writing,
                FsRequest::WriteFile { path, data },
            ),
            (Session::Writing, FsReply::Done) => Step::Done(StorageOutcome::Stored),
            (Session::Removing, FsReply::Done) => Step::Done(StorageOutcome::Deleted),
            (Session::Listing, FsReply::Names(names)) => Step::Done(
                StorageOutcome::Files(Some(names)),
            ),
            (Session::Listing, FsReply::Failed(_)) => Step::Done(StorageOutcome::Files(None)),
            (Session::Inspecting { path }, FsReply::Meta { kind, len }) => match kind {
                EntryKind::File => Step::Done(StorageOutcome::Size(len)),
                EntryKind::Directory => Walk::starting_at(path).prepare(),
                EntryKind::Other => Step::Done(StorageOutcome::Failed(StorageFailure::IoFailure)),
            },
            (Session::Inspecting { path }, FsReply::Failed(IoFault::NotFound)) => Walk::starting_at(
                path,
            ).prepare(),
            (Session::Preparing(walk), FsReply::Done) => {
                let path = walk.current.clone();
                Step::Ask(Session::Measuring(walk), FsRequest::ListEntries { path })
            },
            (Session::Measuring(walk), FsReply::Entries(entries)) => walk.absorb(entries),
            (_, FsReply::Failed(fault)) => Step::Done(
                StorageOutcome::Failed(StorageFailure::from_fault(fault)),
            ),
            _ => Step::Done(StorageOutcome::Failed(StorageFailure::IoFailure)),
        }
    }
}

impl StepView {
    /// The first step of `op` on the place that its path names: every
    /// operation opens with one question about that place.
    pub open spec fn opening(op: StorageOpView) -> StepView {
        match op {
            StorageOpView::Get { path } => StepView::Ask(
                SessionView::Reading,
                FsRequestView::ReadFile { path },
            ),
            StorageOpView::Put { path, data } => StepView::Ask(
                SessionView::MakingRoom { path, data },
                FsRequestView::CreateParentDirs { path },
            ),
            StorageOpView::Delete { path } => StepView::Ask(
                SessionView::Removing,
                FsRequestView::RemoveFile { path },
            ),
            StorageOpView::Size { path } => StepView::Ask(
                SessionView::Inspecting { path },
                FsRequestView::Inspect { path },
            ),
            StorageOpView::GetFiles { path } => StepView::Ask(
                SessionView::Listing,
                FsRequestView::ListNames { path },
            ),
        }
    }
}

impl Step {
    /// Opens a `Get` of the file at `path`: asks for it to be read.
    pub fn get(path: String) -> (r: Step)
        ensures
            r@ == StepView::opening(StorageOpView::Get { path: path@ }),
    {
        Step::Ask(Session::Reading, FsRequest::ReadFile { path })
    }

    /// Opens a `Put` of `data` at `path`: asks for the directories above the
    /// file to be made, and keeps the data for the write that follows.
    pub fn put(path: String, data: Vec<u8>) -> (r: Step)
        ensures
            r@ == StepView::opening(StorageOpView::Put { path: path@, data: data@ }),
    {
        let target = path.clone();
        Step::Ask(Session::MakingRoom { path, data }, FsRequest::CreateParentDirs { path: target })
    }

    /// Opens a `Delete` of the file at `path`: asks for it to be removed.
    pub fn delete(path: String) -> (r: Step)
        ensures
            r@ == StepView::opening(StorageOpView::Delete { path: path@ }),
    {
        Step::Ask(Session::Removing, FsRequest::RemoveFile { path })
    }

    /// Opens a `Size` of `path`: asks what is there.
    pub fn size(path: String) -> (r: Step)
        ensures
            r@ == StepView::opening(StorageOpView::Size { path: path@ }),
    {
        let target = path.clone();
        Step::Ask(Session::Inspecting { path }, FsRequest::Inspect { path: target })
    }

    /// Opens a `GetFiles` of the directory at `path`: asks for its names.
    pub fn get_files(path: String) -> (r: Step)
        ensures
            r@ == StepView::opening(StorageOpView::GetFiles { path: path@ }),
    {
        Step::Ask(Session::Listing, FsRequest::ListNames { path })
    }
}

} // verus!
